//! Where the timestamp goes in the name of a file: between the stem and the
//! extension, as in `app-2023-03-23.log`.

use vstd::prelude::*;
use vstd::slice::slice_subrange;

verus! {

pub const SLASH: u8 = 47;

pub const DOT: u8 = 46;

pub const HYPHEN: u8 = 45;

/// The last place in `bytes` where `byte` stands, -1 if it stands nowhere.
pub open spec fn last_index(bytes: Seq<u8>, byte: u8) -> int
    decreases bytes.len(),
{
    if bytes.len() == 0 {
        -1
    } else if bytes.last() == byte {
        bytes.len() - 1
    } else {
        last_index(bytes.drop_last(), byte)
    }
}

/// The parts of a path.
pub struct Parts {
    /// The directory, with the slash that ends it; empty if the path has
    /// no slash.
    pub directory: Seq<u8>,
    /// The file name up to its last dot. A dot that begins the name is no
    /// such dot, and a name without one is all stem.
    pub stem: Seq<u8>,
    /// What follows the last dot; empty if there is none.
    pub extension: Seq<u8>,
}

pub open spec fn parts(path: Seq<u8>) -> Parts {
    let name = path.skip(last_index(path, SLASH) + 1);
    let dot = last_index(name, DOT);
    Parts {
        directory: path.take(last_index(path, SLASH) + 1),
        stem: if dot > 0 {
            name.take(dot)
        } else {
            name
        },
        extension: if dot > 0 {
            name.skip(dot + 1)
        } else {
            Seq::empty()
        },
    }
}

/// The description of the files that take the place of `path` in turn:
/// `pattern` goes between the stem and the extension, after a hyphen and
/// before a dot.
pub open spec fn description(path: Seq<u8>, pattern: Seq<u8>) -> Seq<u8> {
    parts(path).directory + parts(path).stem + seq![HYPHEN] + pattern + seq![DOT] + parts(
        path,
    ).extension
}

/// The last place at or after `from` where `byte` stands in `bytes`.
pub fn find_last(bytes: &[u8], from: usize, byte: u8) -> (found: Option<usize>)
    requires
        from <= bytes.len(),
    ensures
        match found {
            Some(index) => {
                &&& from <= index < bytes.len()
                &&& last_index(bytes@.skip(from as int), byte) == index - from
            },
            None => last_index(bytes@.skip(from as int), byte) == -1,
        },
{
    let ghost tail = bytes@.skip(from as int);
    let mut end: usize = bytes.len();
    proof {
        assert(tail.take(tail.len() as int) =~= tail);
    }
    while end > from
        invariant
            from <= end <= bytes.len(),
            tail == bytes@.skip(from as int),
            last_index(tail, byte) == last_index(tail.take(end - from), byte),
        decreases end,
    {
        if bytes[end - 1] == byte {
            return Some(end - 1);
        }
        proof {
            assert(tail.take(end - from).drop_last() =~= tail.take(end - from - 1));
        }
        end = end - 1;
    }
    None
}

/// Writes the description of the files that take the place of `path`.
pub fn describe(path: &[u8], pattern: &[u8]) -> (text: Vec<u8>)
    ensures
        text@ == description(path@, pattern@),
{
    let start: usize = match find_last(path, 0, SLASH) {
        Some(slash) => slash + 1,
        None => 0,
    };
    proof {
        assert(path@.skip(0) =~= path@);
    }
    let ghost name = path@.skip(start as int);
    let dot: usize = match find_last(path, start, DOT) {
        Some(dot) if dot > start => dot,
        _ => path.len(),
    };
    let mut text: Vec<u8> = Vec::new();
    text.extend_from_slice(slice_subrange(path, 0, dot));
    text.push(HYPHEN);
    text.extend_from_slice(pattern);
    text.push(DOT);
    if dot < path.len() {
        text.extend_from_slice(slice_subrange(path, dot + 1, path.len()));
    }
    proof {
        let split = last_index(name, DOT);
        if split > 0 {
            assert(path@.subrange(0, dot as int) =~= parts(path@).directory + parts(path@).stem);
            assert(path@.subrange(dot + 1, path@.len() as int) =~= parts(path@).extension);
        } else {
            assert(path@.subrange(0, dot as int) =~= parts(path@).directory + parts(path@).stem);
        }
        assert(text@ =~= description(path@, pattern@));
    }
    text
}

} // verus!
