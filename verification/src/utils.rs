//! The text of an error for the logs: its chain of causes and the frames of
//! its backtrace that lie in this project.

use vstd::prelude::*;

verus! {

/// The causes of an error, given outermost first, printed innermost first,
/// each on a line of its own.
pub open spec fn cause_lines(chain: Seq<Seq<char>>) -> Seq<char>
    decreases chain.len(),
{
    if chain.len() == 0 {
        Seq::empty()
    } else {
        chain.last() + seq!['\n'] + cause_lines(chain.drop_last())
    }
}

/// The pieces of `s` between its newlines (`str::split('\n')`): one more piece
/// than `s` has newlines.
pub open spec fn split_lines(s: Seq<char>) -> Seq<Seq<char>>
    decreases s.len(),
{
    if s.len() == 0 {
        seq![Seq::empty()]
    } else {
        let rest = split_lines(s.drop_last());
        if s.last() == '\n' {
            rest.push(Seq::empty())
        } else {
            rest.update(rest.len() - 1, rest.last().push(s.last()))
        }
    }
}

/// Whether `pattern` occurs in `s`.
pub open spec fn spec_contains(s: Seq<char>, pattern: Seq<char>) -> bool {
    exists|i: int| 0 <= i && i + pattern.len() <= s.len() && #[trigger] s.subrange(i, i + pattern.len()) == pattern
}

/// The backtrace lines, taken two by two (a frame and its source location),
/// whose first line names this project (`transactions_lib`): each pair that
/// does, with a newline after each of its lines.
pub open spec fn relevant_frames(lines: Seq<Seq<char>>) -> Seq<char>
    decreases lines.len(),
{
    if lines.len() == 0 {
        Seq::empty()
    } else {
        let chunk = if !spec_contains(lines[0], "transactions_lib"@) {
            Seq::empty()
        } else if lines.len() == 1 {
            lines[0] + seq!['\n']
        } else {
            lines[0] + seq!['\n'] + lines[1] + seq!['\n']
        };
        let rest = if lines.len() <= 2 {
            Seq::empty()
        } else {
            relevant_frames(lines.subrange(2, lines.len() as int))
        };
        chunk + rest
    }
}

/// The text of an error whose causes are `chain` (outermost first) and whose
/// backtrace, where it has one, is `backtrace`: the causes innermost first, one
/// per line; then, of the backtrace's lines after the first, the relevant
/// frames, preceded by a header where the backtrace has no line after its first.
pub open spec fn spec_format_error(chain: Seq<Seq<char>>, backtrace: Option<Seq<char>>) -> Seq<char> {
    cause_lines(chain) + match backtrace {
        None => Seq::empty(),
        Some(bt) => {
            let lines = split_lines(bt).drop_first();
            (if lines.len() == 0 {
                "\nRelevant backtrace:\n"@
            } else {
                Seq::empty()
            }) + relevant_frames(lines)
        },
    }
}

proof fn lemma_split_lines_nonempty(s: Seq<char>)
    ensures
        split_lines(s).len() >= 1,
    decreases s.len(),
{
    if s.len() > 0 {
        lemma_split_lines_nonempty(s.drop_last());
    }
}

/// Whether `pattern` occurs in `s` at position `at`.
fn occurs_at(s: &str, pattern: &str, at: usize) -> (r: bool)
    requires
        at + pattern@.len() <= s@.len(),
    ensures
        r == (s@.subrange(at as int, at + pattern@.len()) == pattern@),
{
    let n = s.unicode_len();
    let m = pattern.unicode_len();
    let mut k: usize = 0;
    while k < m
        invariant
            n == s@.len(),
            m == pattern@.len(),
            at + m <= s@.len(),
            k <= m,
            forall|t: int| 0 <= t < k ==> s@[at + t] == pattern@[t],
        decreases m - k,
    {
        if s.get_char(at + k) != pattern.get_char(k) {
            assert(s@.subrange(at as int, at + m)[k as int] != pattern@[k as int]);
            return false;
        }
        k = k + 1;
    }
    assert(s@.subrange(at as int, at + m) =~= pattern@);
    true
}

/// Whether `pattern` occurs in `s`.
pub fn text_contains(s: &str, pattern: &str) -> (r: bool)
    ensures
        r == spec_contains(s@, pattern@),
{
    let n = s.unicode_len();
    let m = pattern.unicode_len();
    if m > n {
        return false;
    }
    let mut i: usize = 0;
    loop
        invariant
            n == s@.len(),
            m == pattern@.len(),
            m <= n,
            i <= n - m,
            forall|j: int| 0 <= j < i ==> #[trigger] s@.subrange(j, j + m) != pattern@,
        decreases n - m - i,
    {
        if occurs_at(s, pattern, i) {
            return true;
        }
        if i == n - m {
            assert(forall|j: int| 0 <= j && j + m <= n ==> #[trigger] s@.subrange(j, j + m) != pattern@);
            return false;
        }
        i = i + 1;
    }
}

/// The pieces of `s` between its newlines.
fn split_newlines(s: &str) -> (r: Vec<String>)
    ensures
        r@.map_values(|l: String| l@) == split_lines(s@),
{
    let n = s.unicode_len();
    let mut done: Vec<String> = Vec::new();
    let mut start: usize = 0;
    let mut i: usize = 0;
    assert(s@.take(0) =~= Seq::<char>::empty());
    assert(done@.map_values(|l: String| l@).push(s@.subrange(0, 0)) =~= split_lines(s@.take(0)));
    while i < n
        invariant
            n == s@.len(),
            start <= i <= n,
            done@.map_values(|l: String| l@).push(s@.subrange(start as int, i as int)) == split_lines(s@.take(i as int)),
        decreases n - i,
    {
        let c = s.get_char(i);
        let ghost before = s@.take(i as int);
        let ghost now = s@.take(i + 1);
        assert(now.drop_last() =~= before);
        assert(now.last() == c);
        if c == '\n' {
            let ghost old_view = done@.map_values(|l: String| l@);
            let line = String::from_str(s.substring_char(start, i));
            assert(line@ == s@.subrange(start as int, i as int));
            done.push(line);
            assert(done@.map_values(|l: String| l@) =~= old_view.push(s@.subrange(start as int, i as int)));
            start = i + 1;
            assert(s@.subrange(start as int, i + 1) =~= Seq::<char>::empty());
            assert(done@.map_values(|l: String| l@).push(s@.subrange(start as int, i + 1)) =~= split_lines(now));
        } else {
            assert(s@.subrange(start as int, i + 1) =~= s@.subrange(start as int, i as int).push(c));
            assert(done@.map_values(|l: String| l@).push(s@.subrange(start as int, i + 1)) =~= split_lines(now));
        }
        i = i + 1;
    }
    assert(s@.take(n as int) =~= s@);
    let ghost old_view = done@.map_values(|l: String| l@);
    let last = String::from_str(s.substring_char(start, n));
    done.push(last);
    assert(done@.map_values(|l: String| l@) =~= old_view.push(s@.subrange(start as int, n as int)));
    assert(done@.map_values(|l: String| l@) =~= split_lines(s@));
    done
}

/// The text of an error for the logs, from its causes `chain` (the error
/// itself first, then its cause, and so on) and its backtrace, where it has one.
pub fn format_error(chain: &Vec<String>, backtrace: Option<&str>) -> (r: String)
    ensures
        r@ == spec_format_error(
            chain@.map_values(|c: String| c@),
            match backtrace {
                Some(b) => Some(b@),
                None => None,
            },
        ),
{
    let ghost causes = chain@.map_values(|c: String| c@);
    let mut result = String::new();
    let mut i: usize = chain.len();
    assert(causes.take(i as int) =~= causes);
    while i > 0
        invariant
            i <= chain.len(),
            causes == chain@.map_values(|c: String| c@),
            result@ + cause_lines(causes.take(i as int)) == cause_lines(causes),
        decreases i,
    {
        let ghost part = causes.take(i as int);
        assert(part.drop_last() =~= causes.take(i - 1));
        assert(part.last() == chain@[i - 1]@);
        result.append(chain[i - 1].as_str());
        result.append("\n");
        proof {
            reveal_strlit("\n");
        }
        assert(result@ + cause_lines(causes.take(i - 1)) =~= cause_lines(causes));
        i = i - 1;
    }
    assert(causes.take(0) =~= Seq::<Seq<char>>::empty());
    assert(result@ =~= cause_lines(causes));
    match backtrace {
        None => {
            assert(result@ =~= spec_format_error(causes, None));
            result
        },
        Some(bt) => {
            let lines = split_newlines(bt);
            let ghost all = lines@.map_values(|l: String| l@);
            proof {
                lemma_split_lines_nonempty(bt@);
            }
            let ghost relevant = all.drop_first();
            let ghost head = result@;
            if lines.len() == 1 {
                result.append("\nRelevant backtrace:\n");
            }
            let ghost prefix = result@;
            assert(prefix == head + (if relevant.len() == 0 {
                "\nRelevant backtrace:\n"@
            } else {
                Seq::<char>::empty()
            }));
            let mut j: usize = 1;
            assert(all.subrange(1, all.len() as int) =~= relevant);
            if lines.len() == 1 {
                assert(relevant.len() == 0);
                assert(result@ =~= prefix + relevant_frames(relevant));
            }
            while j < lines.len()
                invariant
                    1 <= j,
                    all == lines@.map_values(|l: String| l@),
                    all.len() >= 1,
                    relevant == all.drop_first(),
                    j <= lines.len(),
                    j >= lines.len() ==> result@ == prefix + relevant_frames(relevant),
                    j < lines.len() ==> result@ + relevant_frames(all.subrange(j as int, all.len() as int)) == prefix
                        + relevant_frames(relevant),
                decreases lines.len() + 1 - j,
            {
                let ghost rest = all.subrange(j as int, all.len() as int);
                let ghost before = result@;
                if text_contains(lines[j].as_str(), "transactions_lib") {
                    result.append(lines[j].as_str());
                    result.append("\n");
                    if lines.len() - j > 1 {
                        result.append(lines[j + 1].as_str());
                        result.append("\n");
                    }
                }
                proof {
                    reveal_strlit("\n");
                    reveal_strlit("transactions_lib");
                }
                if lines.len() - j > 2 {
                    assert(rest.subrange(2, rest.len() as int) =~= all.subrange(j + 2, all.len() as int));
                }
                assert(result@ + (if rest.len() <= 2 {
                    Seq::<char>::empty()
                } else {
                    relevant_frames(rest.subrange(2, rest.len() as int))
                }) =~= before + relevant_frames(rest));
                if lines.len() - j > 2 {
                    j = j + 2;
                } else {
                    j = lines.len();
                }
            }
            assert(result@ =~= spec_format_error(causes, Some(bt@)));
            result
        },
    }
}

} // verus!
