//! Splitting a command line into its program and arguments. A command line
//! is cut at runs of whitespace; the first token names the program, the rest
//! are its arguments.

use vstd::prelude::*;
use crate::text::chars_of;
use crate::text::string_of;

verus! {

/// Whether `c` has the Unicode `White_Space` property: the ASCII space and
/// control whitespace, next line, no-break space, ogham space mark, the
/// en/em quad family, line and paragraph separators, narrow no-break space,
/// medium mathematical space and ideographic space.
pub open spec fn is_space(c: char) -> bool {
    let u = c as u32;
    ||| u == 0x20
    ||| (0x09 <= u && u <= 0x0D)
    ||| u == 0x85
    ||| u == 0xA0
    ||| u == 0x1680
    ||| (0x2000 <= u && u <= 0x200A)
    ||| u == 0x2028
    ||| u == 0x2029
    ||| u == 0x202F
    ||| u == 0x205F
    ||| u == 0x3000
}

/// Runtime test for `is_space`.
pub fn is_space_char(c: char) -> (r: bool)
    ensures
        r == is_space(c),
{
    let u = c as u32;
    u == 0x20 || (0x09 <= u && u <= 0x0D) || u == 0x85 || u == 0xA0 || u == 0x1680 || (0x2000 <= u
        && u <= 0x200A) || u == 0x2028 || u == 0x2029 || u == 0x202F || u == 0x205F || u == 0x3000
}

/// The length of the maximal run of non-space characters at the front of `s`.
pub open spec fn token_len(s: Seq<char>) -> nat
    decreases s.len(),
{
    if s.len() == 0 || is_space(s[0]) {
        0
    } else {
        (1 + token_len(s.skip(1))) as nat
    }
}

pub proof fn lemma_token_len_le(s: Seq<char>)
    ensures
        token_len(s) <= s.len(),
    decreases s.len(),
{
    if s.len() == 0 || is_space(s[0]) {
    } else {
        lemma_token_len_le(s.skip(1));
    }
}

/// The whitespace-separated tokens of `s`: the maximal runs of non-space
/// characters, in order.
pub open spec fn split_ws(s: Seq<char>) -> Seq<Seq<char>>
    decreases s.len(),
{
    if s.len() == 0 {
        Seq::empty()
    } else if is_space(s[0]) {
        split_ws(s.skip(1))
    } else {
        proof {
            lemma_token_len_le(s);
        }
        seq![s.take(token_len(s) as int)] + split_ws(s.skip(token_len(s) as int))
    }
}

/// The views of a sequence of strings.
pub open spec fn views_of(v: Seq<String>) -> Seq<Seq<char>> {
    v.map_values(|t: String| t@)
}

/// The tokens still to come when `cur` holds the partial token read so far
/// and `s` is the unread remainder of the input.
pub open spec fn split_ws_pending(cur: Seq<char>, s: Seq<char>) -> Seq<Seq<char>>
    decreases s.len(),
{
    if s.len() == 0 {
        if cur.len() == 0 {
            Seq::empty()
        } else {
            seq![cur]
        }
    } else if is_space(s[0]) {
        (if cur.len() == 0 {
            Seq::<Seq<char>>::empty()
        } else {
            seq![cur]
        }) + split_ws(s.skip(1))
    } else {
        split_ws_pending(cur.push(s[0]), s.skip(1))
    }
}

/// `split_ws_pending` agrees with `split_ws`: with no partial token in hand
/// the pending tokens are exactly the tokens of the remainder, and with a
/// partial token in hand they are that token extended by the front run of
/// the remainder, followed by the tokens of the rest.
pub proof fn lemma_pending(cur: Seq<char>, s: Seq<char>)
    ensures
        split_ws_pending(cur, s) == if cur.len() == 0 {
            split_ws(s)
        } else {
            seq![cur + s.take(token_len(s) as int)] + split_ws(s.skip(token_len(s) as int))
        },
    decreases s.len(),
{
    lemma_token_len_le(s);
    if s.len() == 0 {
        if cur.len() != 0 {
            assert(cur + s.take(0) =~= cur);
            assert(seq![cur] + split_ws(s.skip(0)) =~= seq![cur]);
        }
    } else if is_space(s[0]) {
        if cur.len() != 0 {
            assert(cur + s.take(0) =~= cur);
            assert(s.skip(0) =~= s);
        }
    } else {
        let d = s.skip(1);
        lemma_pending(cur.push(s[0]), d);
        lemma_token_len_le(d);
        assert(token_len(s) == 1 + token_len(d));
        assert(cur.push(s[0]) + d.take(token_len(d) as int) =~= cur + s.take(
            token_len(s) as int,
        ));
        assert(d.skip(token_len(d) as int) =~= s.skip(token_len(s) as int));
        if cur.len() == 0 {
            assert(seq![cur + s.take(token_len(s) as int)] =~= seq![
                s.take(token_len(s) as int),
            ]);
        }
    }
}

/// Splits `s` into its whitespace-separated tokens.
pub fn split_command_line(s: &str) -> (r: Vec<String>)
    ensures
        views_of(r@) == split_ws(s@),
{
    let chars = chars_of(s);
    let mut r: Vec<String> = Vec::new();
    let mut cur: Vec<char> = Vec::new();
    let mut i: usize = 0;
    proof {
        assert(s@.skip(0) =~= s@);
        lemma_pending(cur@, s@);
        assert(views_of(r@) + split_ws_pending(cur@, s@.skip(0)) =~= split_ws(s@));
    }
    while i < chars.len()
        invariant
            chars@ == s@,
            i <= chars@.len(),
            views_of(r@) + split_ws_pending(cur@, s@.skip(i as int)) == split_ws(s@),
        decreases chars@.len() - i,
    {
        let ghost r_old = r@;
        let ghost cur_old = cur@;
        let c = chars[i];
        if is_space_char(c) {
            if cur.len() > 0 {
                r.push(string_of(&cur));
                cur = Vec::new();
            }
        } else {
            cur.push(c);
        }
        proof {
            let tail = s@.skip(i as int);
            let tail1 = s@.skip(i + 1);
            assert(tail[0] == c);
            assert(tail.skip(1) =~= tail1);
            if is_space(c) {
                lemma_pending(Seq::<char>::empty(), tail1);
                if cur_old.len() > 0 {
                    assert(split_ws_pending(cur_old, tail) == seq![cur_old] + split_ws(tail1));
                    assert(views_of(r@) =~= views_of(r_old) + seq![cur_old]);
                    assert(views_of(r@) + split_ws_pending(cur@, tail1) =~= views_of(r_old)
                        + split_ws_pending(cur_old, tail));
                    assert(views_of(r@) + split_ws_pending(cur@, tail1) == split_ws(s@));
                } else {
                    assert(cur_old =~= Seq::<char>::empty());
                    assert(split_ws_pending(cur_old, tail) == Seq::<Seq<char>>::empty()
                        + split_ws(tail1));
                    assert(Seq::<Seq<char>>::empty() + split_ws(tail1) =~= split_ws(tail1));
                    assert(views_of(r@) + split_ws_pending(cur@, tail1) == split_ws(s@));
                }
            } else {
                assert(cur@ =~= cur_old.push(c));
                assert(split_ws_pending(cur_old, tail) == split_ws_pending(
                    cur_old.push(c),
                    tail1,
                ));
                assert(views_of(r@) + split_ws_pending(cur@, tail1) == split_ws(s@));
            }
            assert(tail1 =~= s@.skip(i as int + 1));
        }
        i += 1;
    }
    proof {
        assert(s@.skip(chars@.len() as int) =~= Seq::<char>::empty());
    }
    if cur.len() > 0 {
        r.push(string_of(&cur));
        proof {
            assert(views_of(r@) =~= split_ws(s@));
        }
    } else {
        proof {
            assert(views_of(r@) + Seq::<Seq<char>>::empty() =~= views_of(r@));
        }
    }
    r
}

/// A command line split for execution: the program to invoke and its
/// argument list.
pub struct CommandParts {
    pub program: String,
    pub args: Vec<String>,
}

/// Splits a command line into the program name and the argument list; a line
/// with no tokens has no program to run.
pub fn parse_command(line: &str) -> (r: Option<CommandParts>)
    ensures
        r is None <==> split_ws(line@).len() == 0,
        r matches Some(p) ==> {
            &&& p.program@ == split_ws(line@)[0]
            &&& views_of(p.args@) == split_ws(line@).skip(1)
        },
{
    let mut toks = split_command_line(line);
    if toks.len() == 0 {
        None
    } else {
        let program = toks.remove(0);
        proof {
            assert(views_of(toks@) =~= split_ws(line@).skip(1));
        }
        Some(CommandParts { program, args: toks })
    }
}

} // verus!
