//! Server startup check: deciding, from the raw output of the system's
//! module listing, whether a given kernel module is loaded. The listing
//! itself is read by the caller; this module only scans the bytes.

use vstd::prelude::*;

use vstd::slice::slice_index_get;

verus! {

/// Position `i` begins a line of `t`.
pub open spec fn spec_is_line_start(t: Seq<u8>, i: int) -> bool {
    i == 0 || t[i - 1] == 10
}

/// Position `j` ends a whitespace-delimited token of `t`: the end of the
/// text, a space, a tab, or a newline.
pub open spec fn spec_token_end(t: Seq<u8>, j: int) -> bool {
    j == t.len() || t[j] == 32 || t[j] == 9 || t[j] == 10
}

/// Everything from the line start `l` up to `i` is blank (spaces or tabs).
pub open spec fn spec_blank_since_line_start(t: Seq<u8>, l: int, i: int) -> bool {
    &&& 0 <= l <= i
    &&& spec_is_line_start(t, l)
    &&& forall|k: int| l <= k < i ==> t[k] == 32 || t[k] == 9
}

/// Position `i` begins the first token of its line: only spaces and tabs
/// stand between the line start and `i`.
pub open spec fn spec_first_token_start(t: Seq<u8>, i: int) -> bool {
    exists|l: int| spec_blank_since_line_start(t, l, i)
}

/// The first whitespace-separated token of some line is exactly `name`,
/// beginning at `i`.
pub open spec fn spec_match_at(t: Seq<u8>, name: Seq<u8>, i: int) -> bool {
    &&& 0 <= i
    &&& i + name.len() <= t.len()
    &&& spec_first_token_start(t, i)
    &&& t.subrange(i, i + name.len()) == name
    &&& spec_token_end(t, i + name.len())
}

/// Some line of the listing names the module first (leading spaces and tabs
/// before the name are allowed).
pub open spec fn spec_module_listed(t: Seq<u8>, name: Seq<u8>) -> bool {
    exists|i: int| spec_match_at(t, name, i)
}

fn bytes_match_at(t: &[u8], i: usize, name: &[u8]) -> (r: bool)
    requires
        i + name@.len() <= t@.len(),
    ensures
        r == (t@.subrange(i as int, i as int + name@.len() as int) == name@),
{
    let tlen = t.len();
    let m = name.len();
    let mut k: usize = 0;
    while k < m
        invariant
            0 <= k <= m,
            m == name@.len(),
            tlen == t@.len(),
            i + m <= t@.len(),
            forall|j: int| 0 <= j < k ==> t@[i + j] == name@[j],
        decreases m - k,
    {
        if *slice_index_get(t, i + k) != *slice_index_get(name, k) {
            proof {
                assert(t@.subrange(i as int, i as int + m as int)[k as int] == t@[i + k]);
            }
            return false;
        }
        k = k + 1;
    }
    proof {
        assert(t@.subrange(i as int, i as int + m as int) =~= name@);
    }
    true
}

/// Scans the listing line by line for one whose first token is `name` — the
/// check the server makes for the `uinput` module before creating its
/// virtual device.
pub fn module_listed(text: &[u8], name: &[u8]) -> (r: bool)
    ensures
        r == spec_module_listed(text@, name@),
{
    let n = text.len();
    let m = name.len();
    let mut i: usize = 0;
    // Whether position `i` still begins its line's first token: nothing but
    // spaces and tabs seen since the last line start.
    let mut at_first_token = true;
    proof {
        assert(spec_blank_since_line_start(text@, 0, 0));
    }
    while i < n
        invariant
            n == text@.len(),
            m == name@.len(),
            0 <= i <= n,
            at_first_token == spec_first_token_start(text@, i as int),
            forall|i2: int| 0 <= i2 < i ==> !spec_match_at(text@, name@, i2),
        decreases n - i,
    {
        if at_first_token && m <= n - i {
            let j = i + m;
            let token_end = if j == n {
                true
            } else {
                let c = *slice_index_get(text, j);
                c == 32u8 || c == 9u8 || c == 10u8
            };
            if token_end && bytes_match_at(text, i, name) {
                proof {
                    assert(spec_match_at(text@, name@, i as int));
                }
                return true;
            }
        }
        proof {
            assert(!spec_match_at(text@, name@, i as int));
        }
        let c = *slice_index_get(text, i);
        let next_at_first_token = if c == 10u8 {
            true
        } else if c == 32u8 || c == 9u8 {
            at_first_token
        } else {
            false
        };
        proof {
            if c == 10 {
                assert(spec_is_line_start(text@, i + 1));
                assert(spec_blank_since_line_start(text@, i + 1, i + 1));
            } else if c == 32 || c == 9 {
                if at_first_token {
                    let l = choose|l: int| spec_blank_since_line_start(text@, l, i as int);
                    assert(spec_blank_since_line_start(text@, l, i + 1));
                } else {
                    if spec_first_token_start(text@, i + 1) {
                        let i1: int = i + 1;
                        let l = choose|l: int| spec_blank_since_line_start(text@, l, i1);
                        // A line cannot start right after a blank byte, so
                        // the blank run already covered position `i`.
                        assert(l <= i);
                        assert(spec_blank_since_line_start(text@, l, i as int));
                        assert(false);
                    }
                }
            } else {
                if spec_first_token_start(text@, i + 1) {
                    let i1: int = i + 1;
                    let l = choose|l: int| spec_blank_since_line_start(text@, l, i1);
                    if l == i + 1 {
                        assert(text@[i as int] == 10);
                    } else {
                        assert(text@[i as int] == 32 || text@[i as int] == 9);
                    }
                    assert(false);
                }
            }
        }
        at_first_token = next_at_first_token;
        i = i + 1;
    }
    let end_match = m == 0 && at_first_token;
    if end_match {
        proof {
            assert(text@.subrange(n as int, n as int) =~= name@);
            assert(spec_match_at(text@, name@, n as int));
        }
        return true;
    }
    proof {
        assert(!spec_match_at(text@, name@, n as int));
        assert forall|i2: int| !spec_match_at(text@, name@, i2) by {
            if 0 <= i2 < n as int {
            } else if i2 == n as int {
            } else {
            }
        }
    }
    false
}

} // verus!
