use vstd::prelude::*;

use crate::convert::TryFromPayload;
use crate::entry::{address_of, Address, Entry, EntryModel};

verus! {

/// Why the bulk fetch from the link index failed outright.
#[derive(Clone, Copy, PartialEq, Eq, Structural, Debug)]
pub enum FetchError {
    /// The underlying store could not be reached at all.
    Unreachable,
    /// The base address was rejected at the index level.
    InvalidBase,
    /// The index reported an internal error.
    Internal,
}

/// The single failure mode of the loader: the bulk fetch itself failed.
/// Per-item failures are never escalated to this level.
#[derive(Clone, Copy, PartialEq, Eq, Structural, Debug)]
pub enum SystemicError {
    Fetch(FetchError),
}

/// Mathematical model of a [`LoadAttempt`].
pub enum LoadAttemptModel {
    Loaded(EntryModel),
    Failed,
}

/// The link index's per-link result: either a successfully fetched entry or
/// a per-item failure (dangling link, fetch error). A failed attempt
/// contributes nothing to the loader's output.
#[derive(Clone, Debug)]
pub enum LoadAttempt {
    Loaded(Entry),
    Failed,
}

impl View for LoadAttempt {
    type V = LoadAttemptModel;

    open spec fn view(&self) -> LoadAttemptModel {
        match self {
            LoadAttempt::Loaded(e) => LoadAttemptModel::Loaded(e@),
            LoadAttempt::Failed => LoadAttemptModel::Failed,
        }
    }
}

/// One unit of loader output: a decoded typed value paired with the content
/// address of the exact entry whose payload produced it.
#[derive(Clone, Debug)]
pub struct GetLinksLoadResult<T> {
    pub entry: T,
    pub address: Address,
}

impl<T: View> View for GetLinksLoadResult<T> {
    type V = (T::V, Seq<u8>);

    open spec fn view(&self) -> (T::V, Seq<u8>) {
        (self.entry@, self.address@)
    }
}

/// Does this attempt survive the loader's filter for target type `R`: it
/// was fetched, it is an application entry, and its payload converts.
pub open spec fn survives<R: TryFromPayload>(a: LoadAttemptModel) -> bool {
    a matches LoadAttemptModel::Loaded(e) && e matches EntryModel::App { value, .. }
        && R::convertible(value)
}

/// The output item a surviving attempt yields: the converted payload paired
/// with the content address of the entry it came from.
pub open spec fn attempt_output<R: TryFromPayload>(a: LoadAttemptModel) -> (R::V, Seq<u8>)
    recommends
        survives::<R>(a),
{
    (R::converted(a->Loaded_0->App_value), address_of(a->Loaded_0))
}

/// The whole per-item pipeline at the spec level: keep the surviving
/// attempts, in order, each mapped to its output item.
pub open spec fn load_model<R: TryFromPayload>(s: Seq<LoadAttemptModel>) -> Seq<(R::V, Seq<u8>)>
    decreases s.len(),
{
    if s.len() == 0 {
        Seq::empty()
    } else if survives::<R>(s.first()) {
        seq![attempt_output::<R>(s.first())] + load_model::<R>(s.drop_first())
    } else {
        load_model::<R>(s.drop_first())
    }
}

/// The models of a sequence of fetched attempts.
pub open spec fn attempts_model(s: Seq<LoadAttempt>) -> Seq<LoadAttemptModel> {
    s.map_values(|a: LoadAttempt| a@)
}

/// The models of a sequence of output items.
pub open spec fn results_model<R: TryFromPayload>(s: Seq<GetLinksLoadResult<R>>) -> Seq<
    (R::V, Seq<u8>),
> {
    s.map_values(|x: GetLinksLoadResult<R>| x@)
}

/// Appending one attempt appends its output item when it survives and
/// nothing otherwise.
proof fn lemma_load_model_snoc<R: TryFromPayload>(s: Seq<LoadAttemptModel>, a: LoadAttemptModel)
    ensures
        survives::<R>(a) ==> load_model::<R>(s.push(a)) == load_model::<R>(s).push(
            attempt_output::<R>(a),
        ),
        !survives::<R>(a) ==> load_model::<R>(s.push(a)) == load_model::<R>(s),
    decreases s.len(),
{
    if s.len() == 0 {
        assert(s.push(a).first() == a);
        assert(s.push(a).drop_first() =~= Seq::<LoadAttemptModel>::empty());
        assert(s =~= Seq::<LoadAttemptModel>::empty());
        assert(load_model::<R>(Seq::<LoadAttemptModel>::empty()) =~= Seq::<
            (R::V, Seq<u8>),
        >::empty());
        if survives::<R>(a) {
            assert(load_model::<R>(s.push(a)) == seq![attempt_output::<R>(a)] + load_model::<R>(
                Seq::<LoadAttemptModel>::empty(),
            ));
            assert(load_model::<R>(s.push(a)) =~= load_model::<R>(s).push(
                attempt_output::<R>(a),
            ));
        } else {
            assert(load_model::<R>(s.push(a)) == load_model::<R>(
                Seq::<LoadAttemptModel>::empty(),
            ));
        }
    } else {
        assert(s.push(a).first() == s.first());
        assert(s.push(a).drop_first() =~= s.drop_first().push(a));
        lemma_load_model_snoc::<R>(s.drop_first(), a);
        if survives::<R>(a) {
            assert(load_model::<R>(s.push(a)) =~= load_model::<R>(s).push(
                attempt_output::<R>(a),
            ));
        }
    }
}

/// The per-item pipeline over an already-fetched sequence of attempts:
/// drop failed attempts, drop non-application entries, drop payloads that
/// fail conversion, and pair what is left with its content address, in
/// fetch order.
pub fn load_attempts<R: TryFromPayload>(attempts: Vec<LoadAttempt>) -> (out: Vec<
    GetLinksLoadResult<R>,
>)
    ensures
        results_model(out@) == load_model::<R>(attempts_model(attempts@)),
{
    let mut out: Vec<GetLinksLoadResult<R>> = Vec::new();
    let mut i: usize = 0;
    while i < attempts.len()
        invariant
            i <= attempts.len(),
            results_model(out@) == load_model::<R>(attempts_model(attempts@).take(i as int)),
        decreases attempts.len() - i,
    {
        let ghost prefix = attempts_model(attempts@).take(i as int);
        let ghost out0 = out@;
        match &attempts[i] {
            LoadAttempt::Loaded(entry) => match entry {
                Entry::App { entry_type: _, value } => match R::try_convert(value) {
                    Ok(typed) => {
                        let address = entry.address();
                        out.push(GetLinksLoadResult { entry: typed, address });
                    },
                    Err(_) => {},
                },
                Entry::Other { .. } => {},
            },
            LoadAttempt::Failed => {},
        }
        proof {
            let a = attempts@[i as int]@;
            assert(attempts_model(attempts@).take(i as int + 1) =~= prefix.push(a));
            lemma_load_model_snoc::<R>(prefix, a);
            if survives::<R>(a) {
                assert(out@ == out0.push(out@.last()));
                assert(out@.last()@ == attempt_output::<R>(a));
                assert(results_model(out@) =~= results_model(out0).push(out@.last()@));
            } else {
                assert(results_model(out@) == results_model(out0));
            }
        }
        i = i + 1;
    }
    proof {
        assert(attempts_model(attempts@).take(attempts@.len() as int) =~= attempts_model(
            attempts@,
        ));
    }
    out
}

/// The output never holds more items than the fetch returned.
pub proof fn lemma_output_no_longer_than_fetch<R: TryFromPayload>(s: Seq<LoadAttemptModel>)
    ensures
        load_model::<R>(s).len() <= s.len(),
    decreases s.len(),
{
    if s.len() == 0 {
    } else {
        lemma_output_no_longer_than_fetch::<R>(s.drop_first());
    }
}

/// The fetch position an output item came from: position `k` of the output
/// is the image of position `source_index(s, k)` of the fetch result.
pub open spec fn source_index<R: TryFromPayload>(s: Seq<LoadAttemptModel>, k: int) -> int
    decreases s.len(),
{
    if s.len() == 0 {
        0
    } else if survives::<R>(s.first()) {
        if k == 0 {
            0
        } else {
            1 + source_index::<R>(s.drop_first(), k - 1)
        }
    } else {
        1 + source_index::<R>(s.drop_first(), k)
    }
}

proof fn lemma_source_index_nonneg<R: TryFromPayload>(s: Seq<LoadAttemptModel>, k: int)
    ensures
        source_index::<R>(s, k) >= 0,
    decreases s.len(),
{
    if s.len() == 0 {
    } else if survives::<R>(s.first()) {
        if k != 0 {
            lemma_source_index_nonneg::<R>(s.drop_first(), k - 1);
        }
    } else {
        lemma_source_index_nonneg::<R>(s.drop_first(), k);
    }
}

/// Every output item is the image of a surviving fetch attempt: its address
/// is the content address of that very entry, and its value is the
/// conversion of that same entry's payload — the two are never decoupled.
pub proof fn lemma_output_pairs_with_source<R: TryFromPayload>(s: Seq<LoadAttemptModel>, k: int)
    requires
        0 <= k < load_model::<R>(s).len(),
    ensures
        0 <= source_index::<R>(s, k) < s.len(),
        survives::<R>(s[source_index::<R>(s, k)]),
        s[source_index::<R>(s, k)] matches LoadAttemptModel::Loaded(e)
            && e matches EntryModel::App { value, .. } && load_model::<R>(s)[k].1 == address_of(e)
            && load_model::<R>(s)[k].0 == R::converted(value),
    decreases s.len(),
{
    if survives::<R>(s.first()) {
        if k == 0 {
        } else {
            lemma_output_pairs_with_source::<R>(s.drop_first(), k - 1);
            assert(s[1 + source_index::<R>(s.drop_first(), k - 1)] == s.drop_first()[
                source_index::<R>(s.drop_first(), k - 1)
            ]);
        }
    } else {
        lemma_output_pairs_with_source::<R>(s.drop_first(), k);
        assert(s[1 + source_index::<R>(s.drop_first(), k)] == s.drop_first()[source_index::<R>(
            s.drop_first(),
            k,
        )]);
    }
}

/// Surviving items keep their fetch order: strictly later output positions
/// come from strictly later fetch positions.
pub proof fn lemma_order_preserved<R: TryFromPayload>(s: Seq<LoadAttemptModel>, k1: int, k2: int)
    requires
        0 <= k1 < k2 < load_model::<R>(s).len(),
    ensures
        source_index::<R>(s, k1) < source_index::<R>(s, k2),
    decreases s.len(),
{
    if survives::<R>(s.first()) {
        if k1 == 0 {
            lemma_source_index_nonneg::<R>(s.drop_first(), k2 - 1);
        } else {
            lemma_order_preserved::<R>(s.drop_first(), k1 - 1, k2 - 1);
        }
    } else {
        lemma_order_preserved::<R>(s.drop_first(), k1, k2);
    }
}

/// An attempt that does not survive — a failed item fetch, an entry that is
/// not an application entry, or a payload that fails conversion — never
/// appears in the output: removing it from the fetch result leaves the
/// output unchanged, however many such attempts there are.
pub proof fn lemma_dropped_attempt_invisible<R: TryFromPayload>(s: Seq<LoadAttemptModel>, j: int)
    requires
        0 <= j < s.len(),
        !survives::<R>(s[j]),
    ensures
        load_model::<R>(s.remove(j)) == load_model::<R>(s),
    decreases s.len(),
{
    if j == 0 {
        assert(s.remove(0) =~= s.drop_first());
    } else {
        assert(s.remove(j).first() == s.first());
        assert(s.remove(j).drop_first() =~= s.drop_first().remove(j - 1));
        assert(s.drop_first()[j - 1] == s[j]);
        lemma_dropped_attempt_invisible::<R>(s.drop_first(), j - 1);
    }
}

/// The loader is deterministic: its output is a function of the fetch
/// outcome alone, so two loads over identical fetch outcomes — two calls
/// with identical arguments against an unchanged store — yield identical
/// items in identical order.
pub proof fn lemma_load_idempotent<R: TryFromPayload>(
    a: Seq<LoadAttemptModel>,
    b: Seq<LoadAttemptModel>,
)
    requires
        a == b,
    ensures
        load_model::<R>(a) == load_model::<R>(b),
{
}

/// Best-effort typed link traversal over an already-performed bulk fetch.
///
/// A failure of the bulk fetch itself is propagated unchanged as the
/// systemic error, with no partial output; on a successful fetch the result
/// is the full per-item pipeline of [`load_attempts`], so an empty fetch
/// (or one whose every item is dropped) yields an empty success, never an
/// error.
pub fn get_links_and_load_type<R: TryFromPayload>(
    fetched: Result<Vec<LoadAttempt>, FetchError>,
) -> (r: Result<Vec<GetLinksLoadResult<R>>, SystemicError>)
    ensures
        r is Ok <==> fetched is Ok,
        fetched matches Ok(attempts) ==> r matches Ok(out) && results_model(out@)
            == load_model::<R>(attempts_model(attempts@)),
        fetched matches Err(e) ==> r matches Err(se) && se == SystemicError::Fetch(e),
        fetched matches Ok(attempts) && attempts@.len() == 0 ==> (r matches Ok(out) && out@.len()
            == 0),
{
    match fetched {
        Ok(attempts) => {
            proof {
                if attempts@.len() == 0 {
                    assert(attempts_model(attempts@) =~= Seq::<LoadAttemptModel>::empty());
                    assert(load_model::<R>(attempts_model(attempts@)).len() == 0);
                }
            }
            Ok(load_attempts::<R>(attempts))
        },
        Err(e) => Err(SystemicError::Fetch(e)),
    }
}

/// The loader with its diagnostic hook: beside the normal result it reports
/// how many attempts the best-effort policy dropped, so a caller may notice
/// pervasive link-graph inconsistency without the loader giving up its
/// silent per-item tolerance.
pub fn get_links_and_load_type_with_count<R: TryFromPayload>(
    fetched: Result<Vec<LoadAttempt>, FetchError>,
) -> (r: (Result<Vec<GetLinksLoadResult<R>>, SystemicError>, usize))
    ensures
        r.0 is Ok <==> fetched is Ok,
        fetched matches Ok(attempts) ==> r.0 matches Ok(out) && results_model(out@)
            == load_model::<R>(attempts_model(attempts@)),
        fetched matches Ok(attempts) ==> r.0 matches Ok(out) && r.1 + out@.len()
            == attempts@.len(),
        fetched matches Err(e) ==> r.0 matches Err(se) && se == SystemicError::Fetch(e),
        fetched is Err ==> r.1 == 0,
{
    match fetched {
        Ok(attempts) => {
            let fetched_len = attempts.len();
            proof {
                lemma_output_no_longer_than_fetch::<R>(attempts_model(attempts@));
            }
            let out = load_attempts::<R>(attempts);
            let dropped = fetched_len - out.len();
            (Ok(out), dropped)
        },
        Err(e) => (Err(SystemicError::Fetch(e)), 0),
    }
}

} // verus!
