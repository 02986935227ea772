//! Path shortening for the prompt: a leading home-directory prefix collapses
//! to `~`, and every segment but the last is compressed to its leading
//! characters up to the first dot, by a character-level pass that tracks a
//! skip flag and a running separator count.

use vstd::prelude::*;
use crate::text::chars_to_string;

verus! {

/// Number of `/` separators in the string.
pub open spec fn slash_count(s: Seq<char>) -> nat
    decreases s.len(),
{
    if s.len() == 0 {
        0
    } else {
        slash_count(s.drop_last()) + (if s.last() == '/' {
            1nat
        } else {
            0nat
        })
    }
}

/// What one character contributes to the compressed output, given the
/// skip flag, the separators passed so far, and the total separator count.
pub open spec fn step_output(c: char, skip: bool, count: nat, sections: nat) -> Seq<char> {
    if c == '~' {
        if !skip {
            seq![c]
        } else {
            Seq::empty()
        }
    } else if c == '.' || c == '/' {
        seq![c]
    } else if skip && count < sections {
        Seq::empty()
    } else {
        seq![c]
    }
}

/// The skip flag after processing one character: a dot or a separator
/// clears it, a tilde leaves it, any other character sets it.
pub open spec fn next_skip(c: char, skip: bool) -> bool {
    if c == '.' || c == '/' {
        false
    } else if c == '~' {
        skip
    } else {
        true
    }
}

/// The skip flag just before the character at position `i` is processed.
pub open spec fn skip_state(s: Seq<char>, i: int) -> bool
    decreases i,
{
    if i <= 0 {
        false
    } else {
        next_skip(s[i - 1], skip_state(s, i - 1))
    }
}

/// The compressed output for positions `i` onward, processed with the
/// given skip flag and running separator count.
pub open spec fn shorten_from(s: Seq<char>, i: int, skip: bool, count: nat, sections: nat) -> Seq<
    char,
>
    decreases s.len() - i,
{
    if i < 0 || i >= s.len() {
        Seq::empty()
    } else {
        step_output(s[i], skip, count, sections) + shorten_from(
            s,
            i + 1,
            next_skip(s[i], skip),
            count + (if s[i] == '/' {
                1nat
            } else {
                0nat
            }),
            sections,
        )
    }
}

/// The whole compression pass over a string.
pub open spec fn compress(s: Seq<char>) -> Seq<char> {
    shorten_from(s, 0, false, 0, slash_count(s))
}

/// The compressed output for the first `i` characters.
pub open spec fn emitted(s: Seq<char>, i: int) -> Seq<char>
    decreases i,
{
    if i <= 0 {
        Seq::empty()
    } else {
        emitted(s, i - 1) + step_output(
            s[i - 1],
            skip_state(s, i - 1),
            slash_count(s.take(i - 1)),
            slash_count(s),
        )
    }
}

/// A home prefix of the path is replaced by a single `~`; a path that does
/// not start with the home directory passes through unchanged.
pub open spec fn home_collapsed(path: Seq<char>, home: Seq<char>) -> Seq<char> {
    if home.len() <= path.len() && path.take(home.len() as int) == home {
        seq!['~'] + path.skip(home.len() as int)
    } else {
        path
    }
}

/// The full transformation: collapse the home prefix, if one is given,
/// then compress.
pub open spec fn tico_spec(path: Seq<char>, home: Option<Seq<char>>) -> Seq<char> {
    match home {
        Some(h) => compress(home_collapsed(path, h)),
        None => compress(path),
    }
}

/// Index of the last `/` in the string, `-1` if there is none.
pub open spec fn last_slash_at(s: Seq<char>) -> int
    decreases s.len(),
{
    if s.len() == 0 {
        -1
    } else if s.last() == '/' {
        s.len() - 1
    } else {
        last_slash_at(s.drop_last())
    }
}

/// The final path segment: everything after the last `/` (the whole string
/// when there is no separator).
pub open spec fn last_segment(s: Seq<char>) -> Seq<char> {
    s.skip(last_slash_at(s) + 1)
}

proof fn lemma_slash_count_take_step(s: Seq<char>, i: int)
    requires
        0 <= i < s.len(),
    ensures
        slash_count(s.take(i + 1)) == slash_count(s.take(i)) + (if s[i] == '/' {
            1nat
        } else {
            0nat
        }),
{
    assert(s.take(i + 1).drop_last() =~= s.take(i));
    assert(s.take(i + 1).last() == s[i]);
}

proof fn lemma_slash_count_frozen(s: Seq<char>, i: int)
    requires
        0 <= i <= s.len(),
        forall|j: int| i <= j < s.len() ==> s[j] != '/',
    ensures
        slash_count(s.take(i)) == slash_count(s),
    decreases s.len() - i,
{
    if i == s.len() {
        assert(s.take(i) =~= s);
    } else {
        lemma_slash_count_take_step(s, i);
        lemma_slash_count_frozen(s, i + 1);
    }
}

proof fn lemma_last_slash_props(s: Seq<char>)
    ensures
        -1 <= last_slash_at(s) < s.len(),
        forall|j: int| last_slash_at(s) < j < s.len() ==> s[j] != '/',
        last_slash_at(s) >= 0 ==> s[last_slash_at(s)] == '/',
    decreases s.len(),
{
    if s.len() == 0 {
    } else if s.last() == '/' {
    } else {
        lemma_last_slash_props(s.drop_last());
        assert(forall|j: int| 0 <= j < s.len() - 1 ==> s.drop_last()[j] == s[j]);
    }
}

proof fn lemma_compress_decompose(s: Seq<char>, i: int)
    requires
        0 <= i <= s.len(),
    ensures
        compress(s) == emitted(s, i) + shorten_from(
            s,
            i,
            skip_state(s, i),
            slash_count(s.take(i)),
            slash_count(s),
        ),
    decreases i,
{
    if i == 0 {
        assert(s.take(0) =~= Seq::<char>::empty());
        assert(emitted(s, 0) + compress(s) =~= compress(s));
    } else {
        lemma_compress_decompose(s, i - 1);
        lemma_slash_count_take_step(s, i - 1);
        let a = emitted(s, i - 1);
        let b = step_output(s[i - 1], skip_state(s, i - 1), slash_count(s.take(i - 1)), slash_count(s));
        let c = shorten_from(s, i, skip_state(s, i), slash_count(s.take(i)), slash_count(s));
        assert(shorten_from(
            s,
            i - 1,
            skip_state(s, i - 1),
            slash_count(s.take(i - 1)),
            slash_count(s),
        ) == b + c);
        assert(a + (b + c) =~= (a + b) + c);
    }
}

/// Positions from `i` onward are all emitted verbatim: each tilde stands
/// where the skip flag is clear, and each plain character before the last
/// separator stands where the skip flag is clear.
proof fn lemma_verbatim_from(s: Seq<char>, i: int)
    requires
        0 <= i <= s.len(),
        forall|j: int| i <= j < s.len() && s[j] == '~' ==> !skip_state(s, j),
        forall|j: int|
            i <= j < last_slash_at(s) && s[j] != '~' && s[j] != '.' && s[j] != '/'
                ==> !skip_state(s, j),
    ensures
        shorten_from(s, i, skip_state(s, i), slash_count(s.take(i)), slash_count(s)) == s.skip(i),
    decreases s.len() - i,
{
    lemma_last_slash_props(s);
    if i == s.len() {
        assert(s.skip(i) =~= Seq::<char>::empty());
    } else {
        let c = s[i];
        lemma_slash_count_take_step(s, i);
        lemma_verbatim_from(s, i + 1);
        if c == '~' || c == '.' || c == '/' {
        } else {
            if i < last_slash_at(s) {
            } else {
                assert(i != last_slash_at(s));
                lemma_slash_count_frozen(s, i);
            }
        }
        assert(step_output(c, skip_state(s, i), slash_count(s.take(i)), slash_count(s))
            == seq![c]);
        assert(seq![c] + s.skip(i + 1) =~= s.skip(i));
    }
}

/// Compression leaves an already-minimal path unchanged. A path is minimal
/// exactly when no character would be dropped: every `~` stands where the
/// skip flag is clear, and every plain character of a non-final segment
/// stands where the skip flag is clear (a non-final segment of one
/// character, or one shielded by a dot, satisfies this).
pub proof fn lemma_minimal_path_stable(s: Seq<char>)
    requires
        forall|i: int| 0 <= i < s.len() && s[i] == '~' ==> !skip_state(s, i),
        forall|i: int|
            0 <= i < last_slash_at(s) && s[i] != '~' && s[i] != '.' && s[i] != '/'
                ==> !skip_state(s, i),
    ensures
        compress(s) == s,
{
    lemma_verbatim_from(s, 0);
    assert(s.take(0) =~= Seq::<char>::empty());
    assert(s.skip(0) =~= s);
}

proof fn lemma_last_slash_append_slashfree(a: Seq<char>, b: Seq<char>)
    requires
        forall|j: int| 0 <= j < b.len() ==> b[j] != '/',
    ensures
        last_slash_at(a + b) == last_slash_at(a),
    decreases b.len(),
{
    if b.len() == 0 {
        assert(a + b =~= a);
    } else {
        assert((a + b).drop_last() =~= a + b.drop_last());
        assert(forall|j: int| 0 <= j < b.len() - 1 ==> b.drop_last()[j] == b[j]);
        lemma_last_slash_append_slashfree(a, b.drop_last());
    }
}

/// Compression preserves the final path segment verbatim, as long as no
/// tilde of the final segment stands where the skip flag is set (such a
/// tilde would be dropped).
pub proof fn lemma_last_segment_preserved(s: Seq<char>)
    requires
        forall|i: int| last_slash_at(s) < i < s.len() && s[i] == '~' ==> !skip_state(s, i),
    ensures
        last_segment(compress(s)) == last_segment(s),
{
    lemma_last_slash_props(s);
    let k = last_slash_at(s) + 1;
    lemma_compress_decompose(s, k);
    lemma_verbatim_from(s, k);
    assert(compress(s) == emitted(s, k) + s.skip(k));
    if k == 0 {
        assert(emitted(s, 0) + s.skip(0) =~= s);
        assert(compress(s) == s);
    } else {
        let a = emitted(s, k);
        let b = s.skip(k);
        assert(s[k - 1] == '/');
        assert(a == emitted(s, k - 1) + step_output(
            s[k - 1],
            skip_state(s, k - 1),
            slash_count(s.take(k - 1)),
            slash_count(s),
        ));
        assert(step_output(s[k - 1], skip_state(s, k - 1), slash_count(s.take(k - 1)),
            slash_count(s)) == seq!['/']);
        assert(a.len() > 0 && a.last() == '/');
        assert(forall|j: int| 0 <= j < b.len() ==> b[j] != '/');
        lemma_last_slash_append_slashfree(a, b);
        assert(last_slash_at(a) == a.len() - 1);
        assert(last_slash_at(compress(s)) == a.len() - 1);
        assert(last_segment(compress(s)) =~= b);
        assert(last_segment(s) =~= b);
    }
}

/// True when `p` is a prefix of `s`, character for character.
fn is_prefix(s: &str, p: &str) -> (r: bool)
    ensures
        r == (p@.len() <= s@.len() && s@.take(p@.len() as int) == p@),
{
    let s_len = s.unicode_len();
    let p_len = p.unicode_len();
    if p_len > s_len {
        return false;
    }
    let mut i: usize = 0;
    while i < p_len
        invariant
            0 <= i <= p_len,
            p_len == p@.len(),
            s_len == s@.len(),
            p_len <= s_len,
            forall|j: int| 0 <= j < i ==> s@[j] == p@[j],
        decreases p_len - i,
    {
        if s.get_char(i) != p.get_char(i) {
            proof {
                assert(s@.take(p@.len() as int)[i as int] != p@[i as int]);
            }
            return false;
        }
        i = i + 1;
    }
    proof {
        assert(s@.take(p@.len() as int) =~= p@);
    }
    true
}

fn collapse_home(path: &str, home: &str) -> (r: String)
    ensures
        r@ == home_collapsed(path@, home@),
{
    let path_len = path.unicode_len();
    let home_len = home.unicode_len();
    if is_prefix(path, home) {
        let rest = path.substring_char(home_len, path_len);
        let mut out = String::new();
        out.append("~");
        out.append(rest);
        proof {
            reveal_strlit("~");
            assert(out@ =~= seq!['~'] + path@.skip(home@.len() as int));
        }
        out
    } else {
        path.to_owned()
    }
}

fn compress_exec(t: &str) -> (r: String)
    ensures
        r@ == compress(t@),
{
    let len = t.unicode_len();
    let mut sections: usize = 0;
    let mut i: usize = 0;
    while i < len
        invariant
            0 <= i <= len,
            len == t@.len(),
            sections == slash_count(t@.take(i as int)),
            sections <= i,
        decreases len - i,
    {
        proof {
            lemma_slash_count_take_step(t@, i as int);
        }
        if t.get_char(i) == '/' {
            sections = sections + 1;
        }
        i = i + 1;
    }
    proof {
        assert(t@.take(len as int) =~= t@);
    }
    let mut out: Vec<char> = Vec::new();
    let mut skip: bool = false;
    let mut count: usize = 0;
    let mut j: usize = 0;
    while j < len
        invariant
            0 <= j <= len,
            len == t@.len(),
            sections == slash_count(t@),
            count == slash_count(t@.take(j as int)),
            count <= j,
            skip == skip_state(t@, j as int),
            out@ == emitted(t@, j as int),
        decreases len - j,
    {
        let ghost pre_skip = skip;
        let ghost pre_count: nat = count as nat;
        let c = t.get_char(j);
        proof {
            lemma_slash_count_take_step(t@, j as int);
        }
        if c == '~' {
            if !skip {
                out.push(c);
            }
        } else if c == '.' {
            skip = false;
            out.push(c);
        } else if c == '/' {
            skip = false;
            count = count + 1;
            out.push(c);
        } else {
            if skip && count < sections {
            } else {
                skip = true;
                out.push(c);
            }
        }
        j = j + 1;
        proof {
            assert(skip == next_skip(c, pre_skip));
            assert(out@ =~= emitted(t@, j - 1) + step_output(c, pre_skip, pre_count, sections as nat));
        }
    }
    proof {
        lemma_compress_decompose(t@, len as int);
        assert(emitted(t@, len as int) + shorten_from(
            t@,
            len as int,
            skip_state(t@, len as int),
            slash_count(t@.take(len as int)),
            slash_count(t@),
        ) =~= emitted(t@, len as int));
    }
    chars_to_string(&out)
}

/// Shortens a path for display: when a home directory is given and is a
/// prefix of the path, that prefix becomes `~`; then every segment but the
/// last collapses to its leading characters up to the first dot.
pub fn tico(path: &str, home_dir: Option<&str>) -> (r: String)
    ensures
        home_dir matches Some(h) ==> r@ == tico_spec(path@, Some(h@)),
        home_dir is None ==> r@ == tico_spec(path@, None::<Seq<char>>),
{
    match home_dir {
        Some(h) => {
            let collapsed = collapse_home(path, h);
            compress_exec(collapsed.as_str())
        },
        None => compress_exec(path),
    }
}

} // verus!
