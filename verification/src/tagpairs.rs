//! The tag-pair parser: turns `Name=Value` command tokens into name and
//! value pairs, for search queries and tag-replace instructions alike.

use vstd::prelude::*;

use crate::errors::CliError;
use crate::text::concat3;

verus! {

/// How many `=` characters the text holds.
pub open spec fn eq_count(s: Seq<char>) -> nat
    decreases s.len(),
{
    if s.len() == 0 {
        0
    } else {
        eq_count(s.drop_last()) + if s.last() == '=' {
            1nat
        } else {
            0nat
        }
    }
}

/// A token is well formed when it splits into exactly two parts on `=`,
/// that is, when it holds exactly one `=`.
pub open spec fn well_formed_pair(s: Seq<char>) -> bool {
    eq_count(s) == 1
}

/// The pair is precisely the two parts of the token around its one `=`.
pub open spec fn pair_splits(p: (Seq<char>, Seq<char>), v: Seq<char>) -> bool {
    &&& p.0 + seq!['='] + p.1 == v
    &&& eq_count(p.0) == 0
    &&& eq_count(p.1) == 0
}

/// The first token, from position `i` on, that is not well formed.
pub open spec fn first_malformed_from(vals: Seq<Seq<char>>, i: int) -> Option<Seq<char>>
    decreases vals.len() - i,
{
    if i < 0 || i >= vals.len() {
        None
    } else if !well_formed_pair(vals[i]) {
        Some(vals[i])
    } else {
        first_malformed_from(vals, i + 1)
    }
}

/// The first token that is not well formed, if any.
pub open spec fn first_malformed(vals: Seq<Seq<char>>) -> Option<Seq<char>> {
    first_malformed_from(vals, 0)
}

/// The error that rejects a malformed token: it cites the first
/// offending token verbatim and states the expected shape.
pub open spec fn malformed_pair_error(e: CliError, vals: Seq<Seq<char>>) -> bool {
    &&& first_malformed(vals) matches Some(t) && e.message.deep_view() == Some(
        "Wrong option value '"@ + t + "'"@,
    )
    &&& e.error@ == "Command error"@
    &&& e.details.deep_view() == Some("Must be of format 'TagName=TagValue'"@)
}

/// The parsed pairs line up with the tokens: one pair per token, each
/// the exact two-part split of its token.
pub open spec fn pairs_match(pairs: Seq<(Seq<char>, Seq<char>)>, tokens: Seq<Seq<char>>) -> bool {
    &&& pairs.len() == tokens.len()
    &&& forall|i: int| 0 <= i < pairs.len() ==> pair_splits(#[trigger] pairs[i], tokens[i])
}

/// A token determines its split: two pairs that both split it are one.
pub proof fn lemma_pair_splits_unique(
    p: (Seq<char>, Seq<char>),
    q: (Seq<char>, Seq<char>),
    v: Seq<char>,
)
    requires
        pair_splits(p, v),
        pair_splits(q, v),
    ensures
        p == q,
{
    lemma_eq_count_zero(p.0);
    lemma_eq_count_zero(q.0);
    if p.0.len() < q.0.len() {
        assert((p.0 + seq!['='] + p.1)[p.0.len() as int] == '=');
        assert((q.0 + seq!['='] + q.1)[p.0.len() as int] == q.0[p.0.len() as int]);
        assert(false);
    } else if q.0.len() < p.0.len() {
        assert((q.0 + seq!['='] + q.1)[q.0.len() as int] == '=');
        assert((p.0 + seq!['='] + p.1)[q.0.len() as int] == p.0[q.0.len() as int]);
        assert(false);
    }
    assert(p.0 =~= q.0) by {
        assert(forall|j: int|
            0 <= j < p.0.len() ==> (p.0 + seq!['='] + p.1)[j] == p.0[j] && (q.0 + seq!['=']
                + q.1)[j] == q.0[j]);
    }
    assert((p.0 + seq!['='] + p.1).len() == p.0.len() + 1 + p.1.len());
    assert((q.0 + seq!['='] + q.1).len() == q.0.len() + 1 + q.1.len());
    assert(p.1.len() == q.1.len());
    assert(p.1 =~= q.1) by {
        assert forall|j: int| 0 <= j < p.1.len() implies p.1[j] == q.1[j] by {
            assert((p.0 + seq!['='] + p.1)[p.0.len() + 1 + j] == p.1[j]);
            assert((q.0 + seq!['='] + q.1)[q.0.len() + 1 + j] == q.1[j]);
            assert(v[p.0.len() + 1 + j] == p.1[j]);
            assert(v[q.0.len() + 1 + j] == q.1[j]);
        }
    }
}

/// A text holds no `=` exactly when no position holds one.
pub proof fn lemma_eq_count_zero(s: Seq<char>)
    ensures
        (eq_count(s) == 0) <==> (forall|j: int| 0 <= j < s.len() ==> s[j] != '='),
    decreases s.len(),
{
    if s.len() > 0 {
        lemma_eq_count_zero(s.drop_last());
        assert(forall|j: int| 0 <= j < s.len() - 1 ==> s.drop_last()[j] == s[j]);
        assert(s.last() == s[s.len() - 1]);
    }
}

/// Counting `=` distributes over concatenation.
pub proof fn lemma_eq_count_concat(a: Seq<char>, b: Seq<char>)
    ensures
        eq_count(a + b) == eq_count(a) + eq_count(b),
    decreases b.len(),
{
    if b.len() == 0 {
        assert(a + b =~= a);
    } else {
        lemma_eq_count_concat(a, b.drop_last());
        assert((a + b).drop_last() =~= a + b.drop_last());
        assert((a + b).last() == b.last());
    }
}

/// Splits one token on its single `=`; none when the token holds no
/// `=` or more than one.
pub fn split_tag_pair(s: &String) -> (r: Option<(String, String)>)
    ensures
        r is Some <==> well_formed_pair(s@),
        r matches Some(p) ==> pair_splits((p.0@, p.1@), s@),
{
    let st: &str = s.as_str();
    let n = st.unicode_len();
    let mut count: usize = 0;
    let mut first: usize = 0;
    let mut i: usize = 0;
    while i < n
        invariant
            i <= n,
            n == s@.len(),
            st@ == s@,
            count <= i,
            count == eq_count(s@.take(i as int)),
            count >= 1 ==> first < i && s@[first as int] == '=' && (forall|j: int|
                0 <= j < first ==> s@[j] != '='),
        decreases n - i,
    {
        proof {
            assert(s@.take(i + 1).drop_last() =~= s@.take(i as int));
            assert(s@.take(i + 1).last() == s@[i as int]);
        }
        let c = st.get_char(i);
        if c == '=' {
            if count == 0 {
                proof {
                    lemma_eq_count_zero(s@.take(i as int));
                    assert(forall|j: int| 0 <= j < i ==> s@.take(i as int)[j] == s@[j]);
                }
                first = i;
            }
            count = count + 1;
        }
        i = i + 1;
    }
    proof {
        assert(s@.take(n as int) =~= s@);
    }
    if count != 1 {
        return None;
    }
    let key = st.substring_char(0, first).to_owned();
    let value = st.substring_char(first + 1, n).to_owned();
    proof {
        assert(key@ + seq!['='] + value@ =~= s@);
        lemma_eq_count_zero(key@);
        lemma_eq_count_concat(key@ + seq!['='], value@);
        lemma_eq_count_concat(key@, seq!['=']);
        assert(eq_count(seq!['=']) == 1) by {
            assert(seq!['='].drop_last() =~= Seq::<char>::empty());
        }
    }
    Some((key, value))
}

/// Parses the command-line option values `TagName=TagValue` into a list
/// of name and value pairs; rejects the first token that does not split
/// into exactly two parts on `=`, citing it.
pub fn parse_tag_kv_pairs(cmd_values: &Vec<String>) -> (r: Result<Vec<(String, String)>, CliError>)
    ensures
        r is Ok <==> first_malformed(cmd_values.deep_view()) is None,
        r matches Ok(pairs) ==> pairs_match(pairs.deep_view(), cmd_values.deep_view()),
        r matches Err(e) ==> malformed_pair_error(e, cmd_values.deep_view()),
{
    let ghost vals = cmd_values.deep_view();
    let mut pairs: Vec<(String, String)> = Vec::new();
    let mut i: usize = 0;
    while i < cmd_values.len()
        invariant
            i <= cmd_values.len(),
            vals == cmd_values.deep_view(),
            pairs.deep_view().len() == i,
            forall|k: int|
                0 <= k < i ==> pair_splits(#[trigger] pairs.deep_view()[k], vals[k]),
            first_malformed(vals) == first_malformed_from(vals, i as int),
        decreases cmd_values.len() - i,
    {
        match split_tag_pair(&cmd_values[i]) {
            Some(p) => {
                let ghost prev = pairs.deep_view();
                let ghost pv = (p.0@, p.1@);
                pairs.push(p);
                proof {
                    assert(pairs.deep_view() =~= prev.push(pv));
                }
            },
            None => {
                let msg = concat3("Wrong option value '", cmd_values[i].as_str(), "'");
                return Err(
                    CliError::new(
                        "Command error",
                        Some(msg.as_str()),
                        Some("Must be of format 'TagName=TagValue'"),
                    ),
                );
            },
        }
        i = i + 1;
    }
    Ok(pairs)
}

} // verus!
