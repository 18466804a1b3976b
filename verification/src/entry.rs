use vstd::prelude::*;

verus! {

/// Content-derived identifier of a stored entry.
///
/// The digest is a deterministic function of the entry's content alone, so
/// two entries with identical content carry identical addresses; an address
/// has no identity of its own.
#[derive(Clone, Debug)]
pub struct Address {
    pub digest: Vec<u8>,
}

impl View for Address {
    type V = Seq<u8>;

    open spec fn view(&self) -> Seq<u8> {
        self.digest@
    }
}

/// Mathematical model of an [`Entry`]: the same variants over `Seq<u8>`.
pub enum EntryModel {
    App { entry_type: Seq<u8>, value: Seq<u8> },
    Other { content: Seq<u8> },
}

/// A stored unit of data.
///
/// An `App` entry carries an entry-type name and an opaque value payload and
/// is the only variant the loader ever tries to convert; every `Other`
/// (system or metadata) entry is rejected at the filtering step.
#[derive(Clone, Debug)]
pub enum Entry {
    App { entry_type: Vec<u8>, value: Vec<u8> },
    Other { content: Vec<u8> },
}

impl View for Entry {
    type V = EntryModel;

    open spec fn view(&self) -> EntryModel {
        match self {
            Entry::App { entry_type, value } => EntryModel::App {
                entry_type: entry_type@,
                value: value@,
            },
            Entry::Other { content } => EntryModel::Other { content: content@ },
        }
    }
}

/// The content address of an entry: a deterministic byte encoding of the
/// entry's own content, tagged so that the two variants never share an
/// address with each other.
pub open spec fn address_of(e: EntryModel) -> Seq<u8> {
    match e {
        EntryModel::App { entry_type, value } => seq![1u8] + entry_type + seq![0u8] + value,
        EntryModel::Other { content } => seq![2u8] + content,
    }
}

/// Append every byte of `src` to `dst`.
fn push_all(dst: &mut Vec<u8>, src: &Vec<u8>)
    ensures
        final(dst)@ == old(dst)@ + src@,
{
    let ghost dst0 = dst@;
    let mut i: usize = 0;
    while i < src.len()
        invariant
            i <= src.len(),
            dst@ == dst0 + src@.take(i as int),
        decreases src.len() - i,
    {
        dst.push(src[i]);
        proof {
            assert(src@.take(i as int + 1) =~= src@.take(i as int).push(src@[i as int]));
            assert(dst@ =~= dst0 + src@.take(i as int + 1));
        }
        i = i + 1;
    }
    proof {
        assert(src@.take(src@.len() as int) =~= src@);
    }
}

impl Entry {
    /// Derive the content address of this entry from its content alone.
    pub fn address(&self) -> (a: Address)
        ensures
            a@ == address_of(self@),
    {
        match self {
            Entry::App { entry_type, value } => {
                let mut digest: Vec<u8> = Vec::new();
                digest.push(1u8);
                push_all(&mut digest, entry_type);
                digest.push(0u8);
                push_all(&mut digest, value);
                proof {
                    assert(digest@ =~= seq![1u8] + entry_type@ + seq![0u8] + value@);
                }
                Address { digest }
            }
            Entry::Other { content } => {
                let mut digest: Vec<u8> = Vec::new();
                digest.push(2u8);
                push_all(&mut digest, content);
                proof {
                    assert(digest@ =~= seq![2u8] + content@);
                }
                Address { digest }
            }
        }
    }
}

} // verus!
