//! The board registry kept beside the board files: which boards exist, which
//! one is open, and the file name that each board is stored under.

use vstd::prelude::*;

use crate::text::{char_is_alphanumeric, is_alnum};

verus! {

/// The texts of a list of names.
pub open spec fn names(v: Seq<String>) -> Seq<Seq<char>> {
    v.map_values(|s: String| s@)
}

/// `s` without the entries equal to `x`, in order.
pub open spec fn without(s: Seq<Seq<char>>, x: Seq<char>) -> Seq<Seq<char>>
    decreases s.len(),
{
    if s.len() == 0 {
        s
    } else {
        let rest = without(s.drop_last(), x);
        if s.last() == x {
            rest
        } else {
            rest.push(s.last())
        }
    }
}

/// The character that stands for `c` in a file name, given whether `c` is
/// alphanumeric.
pub open spec fn safe_char(c: char, alphanumeric: bool) -> char {
    if alphanumeric || c == '-' || c == '_' {
        c
    } else {
        '-'
    }
}

/// The file-name form of a board name: each character that is not
/// alphanumeric, `-` or `_` becomes `-`.
pub open spec fn sanitized(name: Seq<char>) -> Seq<char> {
    Seq::new(name.len(), |i: int| safe_char(name[i], is_alnum(name[i])))
}

/// Which board is open, and the names of the known boards.
#[derive(Debug, Clone)]
pub struct Metadata {
    pub active_board: String,
    pub boards: Vec<String>,
}

impl Default for Metadata {
    /// One board, "default", which is open.
    fn default() -> (r: Metadata)
        ensures
            r.active_board@ == "default"@,
            names(r.boards@) == seq!["default"@],
    {
        let mut boards: Vec<String> = Vec::new();
        boards.push("default".to_owned());
        let r = Metadata { active_board: "default".to_owned(), boards };
        assert(names(r.boards@) =~= seq!["default"@]);
        r
    }
}

/// The place of the first entry of `v` that reads `name`, if any.
pub(crate) fn name_position(v: &Vec<String>, name: &str) -> (r: Option<usize>)
    ensures
        match r {
            Some(i) => i < v@.len() && v@[i as int]@ == name@ && forall|j: int|
                0 <= j < i ==> #[trigger] v@[j]@ != name@,
            None => !names(v@).contains(name@),
        },
{
    let wanted = name.to_owned();
    let mut i: usize = 0;
    while i < v.len()
        invariant
            0 <= i <= v@.len(),
            wanted@ == name@,
            forall|j: int| 0 <= j < i ==> #[trigger] v@[j]@ != name@,
        decreases v@.len() - i,
    {
        if v[i] == wanted {
            return Some(i);
        }
        i = i + 1;
    }
    assert(!names(v@).contains(name@)) by {
        if names(v@).contains(name@) {
            let k = choose|k: int| 0 <= k < names(v@).len() && names(v@)[k] == name@;
            assert(v@[k]@ == name@);
        }
    }
    None
}

impl Metadata {
    /// Adds `name` to the known boards unless it is there; returns whether
    /// it was added.
    pub fn register(&mut self, name: &str) -> (added: bool)
        ensures
            final(self).active_board == old(self).active_board,
            added == !names(old(self).boards@).contains(name@),
            names(final(self).boards@) == if added {
                names(old(self).boards@).push(name@)
            } else {
                names(old(self).boards@)
            },
    {
        if let Some(i) = name_position(&self.boards, name) {
            assert(names(self.boards@)[i as int] == name@);
            false
        } else {
            self.boards.push(name.to_owned());
            assert(names(self.boards@) =~= names(old(self).boards@).push(name@));
            true
        }
    }

    /// Makes `name` the open board, adding it to the known boards if needed.
    pub fn set_active(&mut self, name: &str)
        ensures
            final(self).active_board@ == name@,
            names(final(self).boards@) == if names(old(self).boards@).contains(name@) {
                names(old(self).boards@)
            } else {
                names(old(self).boards@).push(name@)
            },
    {
        self.active_board = name.to_owned();
        self.register(name);
    }

    /// Forgets the board `name`. When it was the open board, the first
    /// remaining board is opened, or "default" when none remains.
    pub fn remove_board(&mut self, name: &str)
        ensures
            names(final(self).boards@) == without(names(old(self).boards@), name@),
            old(self).active_board@ != name@ ==> final(self).active_board == old(self).active_board,
            old(self).active_board@ == name@ && final(self).boards@.len() > 0 ==> final(self).active_board
                == final(self).boards@[0],
            old(self).active_board@ == name@ && final(self).boards@.len() == 0
                ==> final(self).active_board@ == "default"@,
    {
        let wanted = name.to_owned();
        let mut kept: Vec<String> = Vec::new();
        let mut i: usize = 0;
        while i < self.boards.len()
            invariant
                0 <= i <= self.boards@.len(),
                self == old(self),
                wanted@ == name@,
                names(kept@) == without(names(self.boards@).subrange(0, i as int), name@),
            decreases self.boards@.len() - i,
        {
            let ghost before = kept@;
            proof {
                let s = names(self.boards@).subrange(0, i as int + 1);
                assert(s.drop_last() =~= names(self.boards@).subrange(0, i as int));
                assert(s.last() == self.boards@[i as int]@);
            }
            if self.boards[i] != wanted {
                kept.push(self.boards[i].clone());
                assert(names(kept@) =~= names(before).push(self.boards@[i as int]@));
            }
            i = i + 1;
        }
        assert(names(self.boards@).subrange(0, self.boards@.len() as int) =~= names(self.boards@));
        self.boards = kept;
        if self.active_board == wanted {
            if self.boards.len() > 0 {
                self.active_board = self.boards[0].clone();
            } else {
                self.active_board = "default".to_owned();
            }
        }
    }
}

/// The character that stands for `c` in a file name, given whether `c` is
/// alphanumeric.
pub fn sanitize_char(c: char, alphanumeric: bool) -> (r: char)
    ensures
        r == safe_char(c, alphanumeric),
{
    if alphanumeric || c == '-' || c == '_' {
        c
    } else {
        '-'
    }
}

/// The board name made safe for a file name: each character that is not
/// alphanumeric, `-` or `_` becomes `-`. Distinct names may give the same
/// result.
pub fn sanitize_board_name(name: &str) -> (r: String)
    ensures
        r@ == sanitized(name@),
{
    let n = name.unicode_len();
    let mut out = String::new();
    let mut i: usize = 0;
    while i < n
        invariant
            0 <= i <= n,
            n == name@.len(),
            out@ == sanitized(name@).subrange(0, i as int),
        decreases n - i,
    {
        let c = name.get_char(i);
        let alphanumeric = char_is_alphanumeric(c);
        crate::text::push_char(&mut out, sanitize_char(c, alphanumeric));
        assert(out@ =~= sanitized(name@).subrange(0, i as int + 1));
        i = i + 1;
    }
    assert(out@ =~= sanitized(name@));
    out
}

/// The name of the file that holds the board `name`: its sanitized form
/// followed by ".json".
pub fn board_file_name(name: &str) -> (r: String)
    ensures
        r@ == sanitized(name@) + ".json"@,
{
    let mut file = sanitize_board_name(name);
    file.append(".json");
    file
}

} // verus!
