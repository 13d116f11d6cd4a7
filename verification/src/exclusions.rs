//! The exclusion list: a newline-delimited text resource parsed into the
//! keys of repositories that must never be synchronized.
//!
//! A line is kept when it is non-empty or begins with `#`.  That keeps
//! comment lines verbatim in the list; the behaviour is deliberate, for
//! compatibility with the resource as it is consumed today.
use vstd::prelude::*;

verus! {

/// A line with a trailing carriage return removed.
pub open spec fn strip_cr(line: Seq<char>) -> Seq<char> {
    if line.len() > 0 && line.last() == '\r' {
        line.drop_last()
    } else {
        line
    }
}

/// Splits `s` into lines, `cur` being the line under construction.  A line
/// ends at `\n`; a `\r` standing immediately before the `\n` is removed;
/// text after the last `\n` forms a final line, kept as it stands (a bare
/// trailing `\r` included), unless it is empty.
pub open spec fn s_split_acc(s: Seq<char>, cur: Seq<char>) -> Seq<Seq<char>>
    decreases s.len(),
{
    if s.len() == 0 {
        if cur.len() == 0 {
            Seq::empty()
        } else {
            seq![cur]
        }
    } else if s[0] == '\n' {
        seq![strip_cr(cur)] + s_split_acc(s.drop_first(), Seq::empty())
    } else {
        s_split_acc(s.drop_first(), cur.push(s[0]))
    }
}

/// The lines of a text.
pub open spec fn s_split_lines(s: Seq<char>) -> Seq<Seq<char>> {
    s_split_acc(s, Seq::empty())
}

/// Whether a line is kept as an exclusion key: it is non-empty, or begins
/// with `#`.
pub open spec fn s_keep_line(line: Seq<char>) -> bool {
    line.len() != 0 || (line.len() > 0 && line[0] == '#')
}

/// The exclusion keys of a text: its kept lines, in order.
pub open spec fn s_exclusions(text: Seq<char>) -> Seq<Seq<char>> {
    s_split_lines(text).filter(|l: Seq<char>| s_keep_line(l))
}

/// The keys of repositories excluded from synchronization.
#[derive(Debug)]
pub struct ExclusionList {
    /// The kept lines, in document order.
    pub items: Vec<String>,
}

impl View for ExclusionList {
    type V = Seq<Seq<char>>;

    open spec fn view(&self) -> Seq<Seq<char>> {
        self.items.deep_view()
    }
}

impl ExclusionList {
    /// Whether `key` is excluded.
    pub fn contains_key(&self, key: &str) -> (r: bool)
        ensures
            r == self@.contains(key@),
    {
        let n = self.items.len();
        let mut i: usize = 0;
        while i < n
            invariant
                i <= n,
                n == self.items@.len(),
                forall|j: int| 0 <= j < i ==> self@[j] != key@,
        decreases n - i,
        {
            if crate::strutil::str_eq(self.items[i].as_str(), key) {
                proof {
                    assert(self@[i as int] == key@);
                }
                return true;
            }
            i = i + 1;
        }
        proof {
            assert(forall|j: int| 0 <= j < self@.len() ==> self@[j] != key@);
        }
        false
    }
}

/// Splits a text into its lines.
pub fn split_lines(text: &str) -> (r: Vec<String>)
    ensures
        r.deep_view() == s_split_lines(text@),
{
    let n = text.unicode_len();
    let mut lines: Vec<String> = Vec::new();
    let mut start: usize = 0;
    let mut i: usize = 0;
    proof {
        assert(text@.skip(0) =~= text@);
        assert(text@.subrange(0, 0) =~= Seq::<char>::empty());
        assert(lines.deep_view() =~= Seq::<Seq<char>>::empty());
        assert(Seq::<Seq<char>>::empty() + s_split_acc(text@, Seq::empty()) =~= s_split_lines(
            text@,
        ));
    }
    while i < n
        invariant
            start <= i <= n,
            n == text@.len(),
            s_split_lines(text@) == lines.deep_view() + s_split_acc(
                text@.skip(i as int),
                text@.subrange(start as int, i as int),
            ),
        decreases n - i,
    {
        let c = text.get_char(i);
        let ghost cur = text@.subrange(start as int, i as int);
        proof {
            assert(text@.skip(i as int)[0] == text@[i as int]);
            assert(text@.skip(i as int).drop_first() =~= text@.skip(i + 1));
        }
        if c == '\n' {
            let line = if i > start && text.get_char(i - 1) == '\r' {
                text.substring_char(start, i - 1)
            } else {
                text.substring_char(start, i)
            };
            proof {
                if i > start && text@[i - 1] == '\r' {
                    assert(cur.len() > 0 && cur.last() == '\r');
                    assert(line@ =~= strip_cr(cur));
                } else {
                    assert(cur.len() == 0 || cur.last() != '\r');
                    assert(line@ =~= strip_cr(cur));
                }
            }
            let ghost prefix = lines.deep_view();
            lines.push(line.to_owned());
            proof {
                assert(lines.deep_view() =~= prefix.push(strip_cr(cur)));
                let rest = s_split_acc(text@.skip(i + 1), Seq::empty());
                assert(s_split_acc(text@.skip(i as int), cur) == seq![strip_cr(cur)] + rest);
                assert(prefix + (seq![strip_cr(cur)] + rest) =~= prefix.push(strip_cr(cur))
                    + rest);
                assert(text@.subrange(i + 1, i + 1) =~= Seq::<char>::empty());
            }
            start = i + 1;
        } else {
            proof {
                assert(s_split_acc(text@.skip(i as int), cur) == s_split_acc(
                    text@.skip(i + 1),
                    cur.push(text@[i as int]),
                ));
                assert(cur.push(text@[i as int]) =~= text@.subrange(start as int, i + 1));
            }
        }
        i = i + 1;
    }
    let ghost cur = text@.subrange(start as int, n as int);
    proof {
        assert(text@.skip(n as int) =~= Seq::<char>::empty());
    }
    if start < n {
        let line = text.substring_char(start, n);
        proof {
            assert(line@ =~= cur);
        }
        let ghost prefix = lines.deep_view();
        lines.push(line.to_owned());
        proof {
            assert(s_split_acc(Seq::<char>::empty(), cur) == seq![cur]);
            assert(lines.deep_view() =~= prefix.push(cur));
            assert(prefix + seq![cur] =~= prefix.push(cur));
        }
    } else {
        proof {
            assert(cur =~= Seq::<char>::empty());
            assert(s_split_acc(Seq::<char>::empty(), Seq::<char>::empty()) == Seq::<
                Seq<char>,
            >::empty());
            assert(lines.deep_view() + Seq::<Seq<char>>::empty() =~= lines.deep_view());
        }
    }
    lines
}

/// Parses the exclusion resource: the kept lines of the text, in order.
pub fn parse_exclusions(text: &str) -> (r: ExclusionList)
    ensures
        r@ == s_exclusions(text@),
{
    let lines = split_lines(text);
    let n = lines.len();
    let mut items: Vec<String> = Vec::new();
    let mut i: usize = 0;
    proof {
        reveal(Seq::filter);
        assert(lines.deep_view().take(0) =~= Seq::<Seq<char>>::empty());
        assert(items.deep_view() =~= lines.deep_view().take(0).filter(
            |l: Seq<char>| s_keep_line(l),
        ));
    }
    while i < n
        invariant
            i <= n,
            n == lines@.len(),
            items.deep_view() == lines.deep_view().take(i as int).filter(
                |l: Seq<char>| s_keep_line(l),
            ),
        decreases n - i,
    {
        let line = &lines[i];
        proof {
            reveal(Seq::filter);
            assert(lines.deep_view().take(i + 1).drop_last() =~= lines.deep_view().take(i as int));
            assert(lines.deep_view().take(i + 1).last() == line@);
        }
        let keep = !line.as_str().is_empty() || (line.as_str().unicode_len() > 0
            && line.as_str().get_char(0) == '#');
        if keep {
            let ghost prefix = items.deep_view();
            items.push(line.clone());
            proof {
                assert(items.deep_view() =~= prefix.push(line@));
            }
        }
        i = i + 1;
    }
    proof {
        assert(lines.deep_view().take(n as int) =~= lines.deep_view());
    }
    ExclusionList { items }
}

} // verus!
