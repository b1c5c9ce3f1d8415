//! The query-string codec: rendering a parameter list as
//! `key=value&key=value...` and parsing such a string back into pairs,
//! with the round-trip law relating the two.
//!
//! Parameter values are not escaped beyond this: a key containing `&` or
//! `=`, or a value containing `&`, is outside the codec's contract.

use crate::text::spec_split;
use crate::text::split_str;
use crate::text::strings_view;
use vstd::prelude::*;

verus! {

/// The views of a sequence of owned key/value pairs.
pub open spec fn pairs_view(v: Seq<(String, String)>) -> Seq<(Seq<char>, Seq<char>)> {
    Seq::new(v.len(), |i: int| (v[i].0@, v[i].1@))
}

/// The parameter map a pair list denotes: later entries win.
pub open spec fn params_map(ps: Seq<(Seq<char>, Seq<char>)>) -> Map<Seq<char>, Seq<char>>
    decreases ps.len(),
{
    if ps.len() == 0 {
        Map::empty()
    } else {
        params_map(ps.drop_last()).insert(ps.last().0, ps.last().1)
    }
}

/// One pair rendered as `key=value`.
pub open spec fn spec_encode_pair(p: (Seq<char>, Seq<char>)) -> Seq<char> {
    p.0 + seq!['='] + p.1
}

/// A pair list rendered as a query string: pairs joined with `&`.
pub open spec fn spec_encode_query(ps: Seq<(Seq<char>, Seq<char>)>) -> Seq<char>
    decreases ps.len(),
{
    if ps.len() == 0 {
        Seq::empty()
    } else if ps.len() == 1 {
        spec_encode_pair(ps[0])
    } else {
        spec_encode_pair(ps[0]) + seq!['&'] + spec_encode_query(ps.drop_first())
    }
}

/// One query piece split at its first `=`: the key before it, the value
/// after it; a piece without `=` is a key with an empty value.
pub open spec fn spec_pair_of(s: Seq<char>) -> (Seq<char>, Seq<char>)
    decreases s.len(),
{
    if s.len() == 0 {
        (Seq::<char>::empty(), Seq::<char>::empty())
    } else if s[0] == '=' {
        (Seq::<char>::empty(), s.drop_first())
    } else {
        let q = spec_pair_of(s.drop_first());
        (seq![s[0]] + q.0, q.1)
    }
}

/// Each piece of a split query string as a key/value pair.
pub open spec fn pairs_of_pieces(pieces: Seq<Seq<char>>) -> Seq<(Seq<char>, Seq<char>)> {
    Seq::new(pieces.len(), |i: int| spec_pair_of(pieces[i]))
}

/// What parsing a query string yields: its `&`-separated pieces, each
/// split at its first `=`; the empty string carries no parameters.
pub open spec fn spec_parse_query(s: Seq<char>) -> Seq<(Seq<char>, Seq<char>)> {
    if s.len() == 0 {
        Seq::empty()
    } else {
        pairs_of_pieces(spec_split(s, '&'))
    }
}

/// Whether a pair survives the codec: no separator characters in the
/// key, no pair separator in the value.
pub open spec fn query_safe_pair(p: (Seq<char>, Seq<char>)) -> bool {
    &&& forall|i: int| 0 <= i < p.0.len() ==> p.0[i] != '&' && p.0[i] != '='
    &&& forall|i: int| 0 <= i < p.1.len() ==> p.1[i] != '&'
}

/// Whether every pair of a list survives the codec.
pub open spec fn query_safe(ps: Seq<(Seq<char>, Seq<char>)>) -> bool {
    forall|i: int| 0 <= i < ps.len() ==> query_safe_pair(ps[i])
}

/// Splitting `key=value` at its first `=` recovers the key and the value,
/// for any key free of `=`.
proof fn lemma_pair_round_trip(k: Seq<char>, v: Seq<char>)
    requires
        forall|i: int| 0 <= i < k.len() ==> k[i] != '=',
    ensures
        spec_pair_of(k + seq!['='] + v) == (k, v),
    decreases k.len(),
{
    let s = k + seq!['='] + v;
    if k.len() == 0 {
        assert(s[0] == '=');
        assert(s.drop_first() =~= v);
        assert(spec_pair_of(s).0 =~= k);
    } else {
        assert(s[0] == k[0]);
        assert(s.drop_first() =~= k.drop_first() + seq!['='] + v);
        lemma_pair_round_trip(k.drop_first(), v);
        assert(seq![s[0]] + k.drop_first() =~= k);
    }
}

/// An encoded pair never contains `&`, and an encoded safe list is empty
/// exactly when the list is.
proof fn lemma_encode_pair_safe(p: (Seq<char>, Seq<char>))
    requires
        query_safe_pair(p),
    ensures
        spec_encode_pair(p).len() >= 1,
        forall|i: int| 0 <= i < spec_encode_pair(p).len() ==> spec_encode_pair(p)[i] != '&',
{
    let e = spec_encode_pair(p);
    assert forall|i: int| 0 <= i < e.len() implies e[i] != '&' by {
        if i < p.0.len() {
            assert(e[i] == p.0[i]);
        } else if i == p.0.len() {
            assert(e[i] == '=');
        } else {
            assert(e[i] == p.1[i - p.0.len() - 1]);
        }
    }
}

/// Law: re-parsing an encoded safe pair list recovers exactly that list.
pub proof fn lemma_query_round_trip(ps: Seq<(Seq<char>, Seq<char>)>)
    requires
        query_safe(ps),
    ensures
        spec_parse_query(spec_encode_query(ps)) == ps,
    decreases ps.len(),
{
    let s = spec_encode_query(ps);
    if ps.len() == 0 {
        assert(spec_parse_query(s) =~= ps);
    } else if ps.len() == 1 {
        lemma_encode_pair_safe(ps[0]);
        crate::text::lemma_split_no_sep(s, '&');
        lemma_pair_round_trip(ps[0].0, ps[0].1);
        assert(pairs_of_pieces(spec_split(s, '&')) =~= ps);
    } else {
        let e0 = spec_encode_pair(ps[0]);
        let tail = spec_encode_query(ps.drop_first());
        lemma_encode_pair_safe(ps[0]);
        assert(query_safe(ps.drop_first()));
        lemma_query_round_trip(ps.drop_first());
        let k = e0.len() as int;
        assert(s =~= (e0 + seq!['&']) + tail);
        assert(s[k] == '&');
        assert(forall|i: int| 0 <= i < k ==> s[i] == e0[i]);
        crate::text::lemma_split_at_sep(s, '&', k);
        assert(s.take(k) =~= e0);
        assert(s.skip(k + 1) =~= tail);
        lemma_encode_nonempty(ps.drop_first());
        lemma_pair_round_trip(ps[0].0, ps[0].1);
        assert(spec_pair_of(e0) == ps[0]);
        assert(pairs_of_pieces(seq![e0] + spec_split(tail, '&')) =~= seq![ps[0]]
            + pairs_of_pieces(spec_split(tail, '&')));
        assert(spec_parse_query(s) =~= ps);
    }
}

/// Law: the parameter map survives the codec whatever the insertion
/// order: two safe pair lists that denote the same parameter map encode
/// to query strings that re-parse to that same map.
pub proof fn lemma_query_round_trip_map(
    ps1: Seq<(Seq<char>, Seq<char>)>,
    ps2: Seq<(Seq<char>, Seq<char>)>,
)
    requires
        query_safe(ps1),
        query_safe(ps2),
        params_map(ps1) == params_map(ps2),
    ensures
        params_map(spec_parse_query(spec_encode_query(ps1))) == params_map(
            spec_parse_query(spec_encode_query(ps2)),
        ),
{
    lemma_query_round_trip(ps1);
    lemma_query_round_trip(ps2);
}

/// A nonempty safe list encodes to a nonempty string.
proof fn lemma_encode_nonempty(ps: Seq<(Seq<char>, Seq<char>)>)
    requires
        query_safe(ps),
        ps.len() >= 1,
    ensures
        spec_encode_query(ps).len() >= 1,
{
    lemma_encode_pair_safe(ps[0]);
}

/// Appending one pair to a nonempty list appends `&` and its rendering.
proof fn lemma_encode_push(ps: Seq<(Seq<char>, Seq<char>)>, p: (Seq<char>, Seq<char>))
    requires
        ps.len() >= 1,
    ensures
        spec_encode_query(ps.push(p)) == spec_encode_query(ps) + seq!['&'] + spec_encode_pair(p),
    decreases ps.len(),
{
    if ps.len() == 1 {
        let w = ps.push(p);
        assert(w.drop_first() =~= seq![p]);
        assert(spec_encode_query(seq![p]) == spec_encode_pair(p));
        assert(spec_encode_query(w) =~= spec_encode_query(ps) + seq!['&'] + spec_encode_pair(p));
    } else {
        let w = ps.push(p);
        assert(w.drop_first() =~= ps.drop_first().push(p));
        lemma_encode_push(ps.drop_first(), p);
        assert(spec_encode_query(w) =~= spec_encode_query(ps) + seq!['&'] + spec_encode_pair(p));
    }
}

/// Renders a parameter list as a query string.
pub fn encode_query(params: &Vec<(String, String)>) -> (r: String)
    ensures
        r@ == spec_encode_query(pairs_view(params@)),
{
    let ghost ps = pairs_view(params@);
    let mut s = String::new();
    let mut i: usize = 0;
    while i < params.len()
        invariant
            0 <= i <= params.len(),
            ps == pairs_view(params@),
            s@ == spec_encode_query(ps.take(i as int)),
        decreases params.len() - i,
    {
        if i > 0 {
            s.append("&");
            proof {
                reveal_strlit("&");
                assert("&"@ =~= seq!['&']);
            }
        }
        s.append(params[i].0.as_str());
        s.append("=");
        s.append(params[i].1.as_str());
        proof {
            reveal_strlit("=");
            assert("="@ =~= seq!['=']);
            let t = ps.take(i + 1);
            if i == 0 {
                assert(t =~= seq![ps[0]]);
                assert(s@ =~= spec_encode_query(t));
            } else {
                assert(ps.take(i + 1) =~= ps.take(i as int).push(ps[i as int]));
                lemma_encode_push(ps.take(i as int), ps[i as int]);
                assert(s@ =~= spec_encode_query(ps.take(i + 1)));
            }
        }
        i = i + 1;
    }
    proof {
        assert(ps.take(params@.len() as int) =~= ps);
    }
    s
}

/// Splits one query piece at its first `=`.
fn split_pair(piece: &str) -> (r: (String, String))
    ensures
        (r.0@, r.1@) == spec_pair_of(piece@),
{
    let n = piece.unicode_len();
    let mut i: usize = 0;
    while i < n
        invariant
            0 <= i <= n == piece@.len(),
            forall|j: int| 0 <= j < i ==> piece@[j] != '=',
        decreases n - i,
    {
        if piece.get_char(i) == '=' {
            let key = piece.substring_char(0, i);
            let value = piece.substring_char(i + 1, n);
            proof {
                lemma_pair_at(piece@, i as int);
                assert(piece@.take(i as int) =~= piece@.subrange(0, i as int));
                assert(piece@.skip(i + 1) =~= piece@.subrange(i + 1, n as int));
            }
            return (key.to_owned(), value.to_owned());
        }
        i = i + 1;
    }
    proof {
        lemma_pair_no_eq(piece@);
    }
    (piece.to_owned(), String::new())
}

/// A piece with its first `=` at position `k` splits into what stands
/// before and after it.
proof fn lemma_pair_at(s: Seq<char>, k: int)
    requires
        0 <= k < s.len(),
        s[k] == '=',
        forall|i: int| 0 <= i < k ==> s[i] != '=',
    ensures
        spec_pair_of(s) == (s.take(k), s.skip(k + 1)),
    decreases k,
{
    if k == 0 {
        assert(s.take(0) =~= Seq::<char>::empty());
        assert(s.skip(1) =~= s.drop_first());
    } else {
        let d = s.drop_first();
        assert(d[k - 1] == '=');
        assert(forall|i: int| 0 <= i < k - 1 ==> d[i] != '=');
        lemma_pair_at(d, k - 1);
        assert(d.take(k - 1) =~= s.take(k).drop_first());
        assert(d.skip(k) =~= s.skip(k + 1));
        assert(seq![s[0]] + s.take(k).drop_first() =~= s.take(k));
    }
}

/// A piece without `=` is all key.
proof fn lemma_pair_no_eq(s: Seq<char>)
    requires
        forall|i: int| 0 <= i < s.len() ==> s[i] != '=',
    ensures
        spec_pair_of(s) == (s, Seq::<char>::empty()),
    decreases s.len(),
{
    if s.len() > 0 {
        lemma_pair_no_eq(s.drop_first());
        assert(seq![s[0]] + s.drop_first() =~= s);
    }
}

/// Parses a query string back into its key/value pairs.
pub fn parse_query(s: &str) -> (r: Vec<(String, String)>)
    ensures
        pairs_view(r@) == spec_parse_query(s@),
{
    let mut out: Vec<(String, String)> = Vec::new();
    if s.unicode_len() == 0 {
        proof {
            assert(pairs_view(out@) =~= spec_parse_query(s@));
        }
        return out;
    }
    let pieces = split_str(s, '&');
    let ghost split = spec_split(s@, '&');
    let mut i: usize = 0;
    while i < pieces.len()
        invariant
            0 <= i <= pieces.len(),
            strings_view(pieces@) == split,
            pairs_view(out@) == pairs_of_pieces(split).take(i as int),
        decreases pieces.len() - i,
    {
        let pair = split_pair(pieces[i].as_str());
        proof {
            assert(pieces@[i as int]@ == strings_view(pieces@)[i as int]);
            assert((pair.0@, pair.1@) == spec_pair_of(split[i as int]));
        }
        let ghost prev = out@;
        out.push(pair);
        proof {
            assert(pairs_view(prev).len() == prev.len());
            assert(prev.len() == i);
            assert(strings_view(pieces@).len() == pieces@.len());
            assert(split.len() == pieces@.len());
            assert(pairs_of_pieces(split).len() == split.len());
            assert forall|j: int| 0 <= j < out@.len() implies pairs_view(out@)[j]
                == pairs_of_pieces(split).take(i + 1)[j] by {
                if j < i {
                    assert(pairs_view(prev)[j] == pairs_of_pieces(split).take(i as int)[j]);
                    assert(pairs_view(out@)[j] == (prev[j].0@, prev[j].1@));
                } else {
                    assert(pairs_view(out@)[j] == (pair.0@, pair.1@));
                    assert(pairs_of_pieces(split)[j] == spec_pair_of(split[j]));
                }
            }
            assert(pairs_view(out@) =~= pairs_of_pieces(split).take(i + 1));
        }
        i = i + 1;
    }
    proof {
        assert(pairs_of_pieces(split).take(pieces@.len() as int) =~= pairs_of_pieces(split));
    }
    out
}

} // verus!
