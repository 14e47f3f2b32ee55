//! The Connect-4 state as JSON text: `{"board":[c0,...,c41],"next_player":p}`
//! where each cell is `null` or a player index. This is the body sent to
//! agents and the text stored with each turn. Encoding is canonical (no
//! spaces), and decoding accepts exactly the canonical texts of positions.
use vstd::prelude::*;

use crate::board::{board_wf, cells_valid, CELLS};
use crate::games::connect4::Connect4;

verus! {

/// The text of one cell.
pub open spec fn cell_token(c: Option<usize>) -> Seq<u8> {
    match c {
        None => seq![110u8, 117u8, 108u8, 108u8],
        Some(p) => seq![(48 + p) as u8],
    }
}

/// The cells, comma separated.
pub open spec fn cells_json(s: Seq<Option<usize>>) -> Seq<u8>
    decreases s.len(),
{
    if s.len() == 0 {
        Seq::empty()
    } else if s.len() == 1 {
        cell_token(s[0])
    } else {
        cell_token(s[0]) + seq![44u8] + cells_json(s.drop_first())
    }
}

/// `{"board":[`
pub open spec fn json_head() -> Seq<u8> {
    seq![123u8, 34u8, 98u8, 111u8, 97u8, 114u8, 100u8, 34u8, 58u8, 91u8]
}

/// `],"next_player":`
pub open spec fn json_middle() -> Seq<u8> {
    seq![93u8, 44u8, 34u8, 110u8, 101u8, 120u8, 116u8, 95u8, 112u8, 108u8, 97u8, 121u8, 101u8, 114u8, 34u8, 58u8]
}

/// The text after the cells, given the player to move.
pub open spec fn json_tail(next: usize) -> Seq<u8> {
    json_middle() + seq![(48 + next) as u8, 125u8]
}

/// The JSON text of a position.
pub open spec fn state_json(b: Seq<Option<usize>>, next: usize) -> Seq<u8> {
    json_head() + cells_json(b) + json_tail(next)
}

/// A position that the text format can carry.
pub open spec fn position_valid(b: Seq<Option<usize>>, next: usize) -> bool {
    board_wf(b) && cells_valid(b) && next < 2
}

/// The position whose text is `bytes`, if there is one.
pub open spec fn decoded(bytes: Seq<u8>) -> Option<(Seq<Option<usize>>, usize)> {
    if exists|b: Seq<Option<usize>>, n: usize| position_valid(b, n) && state_json(b, n) == bytes {
        Some(choose|b: Seq<Option<usize>>, n: usize| position_valid(b, n) && state_json(b, n) == bytes)
    } else {
        None
    }
}

/// Joining two non-empty runs of cells puts a comma between their texts.
pub proof fn lemma_cells_concat(s1: Seq<Option<usize>>, s2: Seq<Option<usize>>)
    requires
        s1.len() > 0,
        s2.len() > 0,
    ensures
        cells_json(s1 + s2) == cells_json(s1) + seq![44u8] + cells_json(s2),
    decreases s1.len(),
{
    let s = s1 + s2;
    if s1.len() == 1 {
        assert(s.drop_first() =~= s2);
        assert(s[0] == s1[0]);
    } else {
        lemma_cells_concat(s1.drop_first(), s2);
        assert(s.drop_first() =~= s1.drop_first() + s2);
        assert(s[0] == s1[0]);
        assert(cells_json(s) =~= cells_json(s1) + seq![44u8] + cells_json(s2));
    }
}

/// The text of the first `i + 1` cells extends that of the first `i` by a
/// separator (after the first) and the token of cell `i`.
pub proof fn lemma_cells_push(s: Seq<Option<usize>>, i: int)
    requires
        0 <= i < s.len(),
    ensures
        cells_json(s.subrange(0, i + 1)) == cells_json(s.subrange(0, i))
            + (if i > 0 { seq![44u8] } else { Seq::empty() }) + cell_token(s[i]),
{
    if i == 0 {
        assert(cells_json(s.subrange(0, 1)) == cell_token(s.subrange(0, 1)[0]));
        assert(cells_json(s.subrange(0, 0)) =~= Seq::<u8>::empty());
        assert(cells_json(s.subrange(0, 1)) =~= Seq::<u8>::empty() + Seq::<u8>::empty() + cell_token(s[0]));
    } else {
        assert(s.subrange(0, i + 1) =~= s.subrange(0, i) + seq![s[i]]);
        lemma_cells_concat(s.subrange(0, i), seq![s[i]]);
        assert(cells_json(seq![s[i]]) == cell_token(seq![s[i]][0]));
    }
}

/// The text of all the cells starts with the text of the first `i`.
pub proof fn lemma_cells_prefix(s: Seq<Option<usize>>, i: int)
    requires
        0 < i < s.len(),
    ensures
        cells_json(s) == cells_json(s.subrange(0, i)) + seq![44u8] + cells_json(s.subrange(i, s.len() as int)),
{
    assert(s =~= s.subrange(0, i) + s.subrange(i, s.len() as int));
    lemma_cells_concat(s.subrange(0, i), s.subrange(i, s.len() as int));
}

/// Two runs of valid cells of one length followed by texts that start with
/// `]` give the same bytes only when cells and texts are the same.
pub proof fn lemma_cells_injective(s1: Seq<Option<usize>>, s2: Seq<Option<usize>>, t1: Seq<u8>, t2: Seq<u8>)
    requires
        s1.len() == s2.len(),
        cells_valid(s1),
        cells_valid(s2),
        t1.len() > 0 && t1[0] == 93u8,
        t2.len() > 0 && t2[0] == 93u8,
        cells_json(s1) + t1 == cells_json(s2) + t2,
    ensures
        s1 == s2,
        t1 == t2,
    decreases s1.len(),
{
    let x = cells_json(s1) + t1;
    if s1.len() == 0 {
        assert(cells_json(s1) =~= Seq::<u8>::empty());
        assert(cells_json(s2) =~= Seq::<u8>::empty());
        assert(t1 =~= x);
        assert(t2 =~= x);
        assert(s1 =~= s2);
    } else {
        let a = s1[0];
        let b = s2[0];
        let rest1 = if s1.len() == 1 { t1 } else { seq![44u8] + cells_json(s1.drop_first()) + t1 };
        let rest2 = if s2.len() == 1 { t2 } else { seq![44u8] + cells_json(s2.drop_first()) + t2 };
        assert(x =~= cell_token(a) + rest1);
        assert(x =~= cell_token(b) + rest2);
        assert(a matches Some(p) ==> p < 2);
        assert(b matches Some(p) ==> p < 2);
        assert(x[0] == cell_token(a)[0]);
        assert(x[0] == cell_token(b)[0]);
        assert(a == b);
        let l = cell_token(a).len() as int;
        assert(rest1 =~= x.subrange(l, x.len() as int));
        assert(rest2 =~= x.subrange(l, x.len() as int));
        if s1.len() == 1 {
            assert(s1 =~= s2);
        } else {
            let y1 = cells_json(s1.drop_first()) + t1;
            let y2 = cells_json(s2.drop_first()) + t2;
            assert(y1 =~= rest1.subrange(1, rest1.len() as int));
            assert(y2 =~= rest2.subrange(1, rest2.len() as int));
            lemma_cells_injective(s1.drop_first(), s2.drop_first(), t1, t2);
            assert(s1 =~= seq![a] + s1.drop_first());
            assert(s2 =~= seq![b] + s2.drop_first());
        }
    }
}

/// Distinct valid positions have distinct texts.
pub proof fn lemma_state_json_injective(b1: Seq<Option<usize>>, n1: usize, b2: Seq<Option<usize>>, n2: usize)
    requires
        position_valid(b1, n1),
        position_valid(b2, n2),
        state_json(b1, n1) == state_json(b2, n2),
    ensures
        b1 == b2,
        n1 == n2,
{
    let x = state_json(b1, n1);
    let h = json_head().len() as int;
    assert(x.subrange(h, x.len() as int) =~= cells_json(b1) + json_tail(n1));
    assert(state_json(b2, n2).subrange(h, x.len() as int) =~= cells_json(b2) + json_tail(n2));
    lemma_cells_injective(b1, b2, json_tail(n1), json_tail(n2));
    assert(json_tail(n1)[16] == json_tail(n2)[16]);
}

/// Decoding the text of a valid position gives that position back.
pub proof fn lemma_state_round_trip(b: Seq<Option<usize>>, n: usize)
    requires
        position_valid(b, n),
    ensures
        decoded(state_json(b, n)) == Some((b, n)),
{
    let bytes = state_json(b, n);
    assert(position_valid(b, n) && state_json(b, n) == bytes);
    let (b2, n2) = choose|b2: Seq<Option<usize>>, n2: usize| position_valid(b2, n2) && state_json(b2, n2) == bytes;
    lemma_state_json_injective(b, n, b2, n2);
}

fn push_all(out: &mut Vec<u8>, bytes: &[u8])
    ensures
        final(out)@ == old(out)@ + bytes@,
{
    let mut i: usize = 0;
    while i < bytes.len()
        invariant
            0 <= i <= bytes@.len(),
            out@ == old(out)@ + bytes@.subrange(0, i as int),
        decreases bytes@.len() - i,
    {
        out.push(bytes[i]);
        i = i + 1;
        assert(out@ =~= old(out)@ + bytes@.subrange(0, i as int));
    }
    assert(bytes@.subrange(0, bytes@.len() as int) =~= bytes@);
}

fn head_bytes() -> (r: [u8; 10])
    ensures
        r@ == json_head(),
{
    let r: [u8; 10] = [123, 34, 98, 111, 97, 114, 100, 34, 58, 91];
    assert(r@ =~= json_head());
    r
}

fn middle_bytes() -> (r: [u8; 16])
    ensures
        r@ == json_middle(),
{
    let r: [u8; 16] = [93, 44, 34, 110, 101, 120, 116, 95, 112, 108, 97, 121, 101, 114, 34, 58];
    assert(r@ =~= json_middle());
    r
}

/// The JSON text of a position.
pub fn encode_state(state: &Connect4) -> (r: Vec<u8>)
    requires
        state.wf(),
    ensures
        r@ == state_json(state.board@, state.next_player),
{
    let b = &state.board;
    let mut out: Vec<u8> = Vec::new();
    let head = head_bytes();
    push_all(&mut out, head.as_slice());
    let mut i: usize = 0;
    while i < CELLS
        invariant
            state.wf(),
            b == &state.board,
            0 <= i <= 42,
            out@ == json_head() + cells_json(b@.subrange(0, i as int)),
        decreases 42 - i,
    {
        proof {
            lemma_cells_push(b@, i as int);
        }
        let ghost before = out@;
        if i > 0 {
            out.push(44u8);
        }
        match b[i] {
            None => {
                out.push(110u8);
                out.push(117u8);
                out.push(108u8);
                out.push(108u8);
            },
            Some(p) => {
                assert(b@[i as int] matches Some(q) ==> q < 2);
                out.push((48 + p) as u8);
            },
        }
        assert(out@ =~= json_head() + cells_json(b@.subrange(0, i as int + 1)));
        i = i + 1;
    }
    assert(b@.subrange(0, 42) =~= b@);
    let middle = middle_bytes();
    push_all(&mut out, middle.as_slice());
    out.push((48 + state.next_player) as u8);
    out.push(125u8);
    assert(out@ =~= state_json(b@, state.next_player));
    out
}

/// The separator in front of cell `i`: a comma after the first cell.
pub open spec fn separator(i: int) -> Seq<u8> {
    if i > 0 {
        seq![44u8]
    } else {
        Seq::empty()
    }
}

/// Where cell `i` of a position's text starts, counting its separator.
pub open spec fn cell_offset(b: Seq<Option<usize>>, i: int) -> int {
    (json_head().len() + cells_json(b.subrange(0, i)).len()) as int
}

/// Cell `i` of the text of a position comes, with its separator, right
/// after the text of the cells before it.
pub proof fn lemma_json_at(b: Seq<Option<usize>>, n: usize, i: int)
    requires
        position_valid(b, n),
        0 <= i < 42,
    ensures
        ({
            let x = state_json(b, n);
            let start = cell_offset(b, i);
            let chunk = separator(i) + cell_token(b[i]);
            &&& start + chunk.len() <= x.len()
            &&& x.subrange(start, start + chunk.len()) == chunk
        }),
{
    let x = state_json(b, n);
    let rest = b.subrange(i, 42);
    assert(rest[0] == b[i]);
    let tail_cells = if rest.len() == 1 { Seq::<u8>::empty() } else { seq![44u8] + cells_json(rest.drop_first()) };
    assert(cells_json(rest) =~= cell_token(b[i]) + tail_cells);
    if i > 0 {
        lemma_cells_prefix(b, i);
        assert(x =~= json_head() + cells_json(b.subrange(0, i)) + (separator(i) + cell_token(b[i])) + tail_cells + json_tail(n));
    } else {
        assert(b =~= rest);
        assert(cells_json(b.subrange(0, 0)) =~= Seq::<u8>::empty());
        assert(x =~= json_head() + cells_json(b.subrange(0, i)) + (separator(i) + cell_token(b[i])) + tail_cells + json_tail(n));
    }
    let start = cell_offset(b, i);
    let chunk = separator(i) + cell_token(b[i]);
    assert(x.subrange(start, start + chunk.len()) =~= chunk);
}

/// After the last cell come the middle text, the player digit and `}`.
pub proof fn lemma_json_end(b: Seq<Option<usize>>, n: usize)
    requires
        position_valid(b, n),
    ensures
        ({
            let x = state_json(b, n);
            let start = (json_head().len() + cells_json(b).len()) as int;
            x.subrange(start, x.len() as int) == json_tail(n)
        }),
{
    let x = state_json(b, n);
    let start = (json_head().len() + cells_json(b).len()) as int;
    assert(x.subrange(start, x.len() as int) =~= json_tail(n));
}

/// Whether `bytes` holds `lit` at `pos`.
fn bytes_at(bytes: &Vec<u8>, pos: usize, lit: &[u8]) -> (r: bool)
    ensures
        r == (pos + lit@.len() <= bytes@.len() && bytes@.subrange(pos as int, pos + lit@.len()) == lit@),
{
    if lit.len() > bytes.len() || pos > bytes.len() - lit.len() {
        return false;
    }
    let n = bytes.len();
    let mut i: usize = 0;
    while i < lit.len()
        invariant
            n == bytes@.len(),
            pos + lit@.len() <= bytes@.len(),
            0 <= i <= lit@.len(),
            forall|k: int| 0 <= k < i ==> bytes@[pos + k] == lit@[k],
        decreases lit@.len() - i,
    {
        if bytes[pos + i] != lit[i] {
            assert(bytes@.subrange(pos as int, pos + lit@.len())[i as int] != lit@[i as int]);
            return false;
        }
        i = i + 1;
    }
    assert(bytes@.subrange(pos as int, pos + lit@.len()) =~= lit@);
    true
}

/// The valid cell whose token stands in `bytes` at `pos`, if one does.
fn token_at(bytes: &Vec<u8>, pos: usize) -> (r: Option<Option<usize>>)
    ensures
        r matches Some(c) ==> (c matches Some(p) ==> p < 2) && pos + cell_token(c).len() <= bytes@.len()
            && bytes@.subrange(pos as int, pos + cell_token(c).len()) == cell_token(c),
        r is None ==> forall|c: Option<usize>| (c matches Some(p) ==> p < 2) ==>
            !(pos + cell_token(c).len() <= bytes@.len() && #[trigger] bytes@.subrange(pos as int, pos + cell_token(c).len()) == cell_token(c)),
{
    if pos >= bytes.len() {
        return None;
    }
    let first = bytes[pos];
    if first == 48u8 || first == 49u8 {
        let p: usize = (first - 48) as usize;
        assert(bytes@.subrange(pos as int, pos + 1) =~= cell_token(Some(p)));
        return Some(Some(p));
    }
    let null: [u8; 4] = [110, 117, 108, 108];
    assert(null@ =~= cell_token(None));
    if bytes_at(bytes, pos, null.as_slice()) {
        return Some(None);
    }
    proof {
        assert forall|c: Option<usize>| (c matches Some(p) ==> p < 2) implies
            !(pos + cell_token(c).len() <= bytes@.len() && #[trigger] bytes@.subrange(pos as int, pos + cell_token(c).len()) == cell_token(c)) by {
            if c is Some && pos + cell_token(c).len() <= bytes@.len() {
                assert(bytes@.subrange(pos as int, pos + cell_token(c).len())[0] == bytes@[pos as int]);
            }
        }
    }
    None
}

/// The position whose JSON text is `bytes`: the canonical text that
/// `encode_state` writes, and nothing else.
pub fn decode_state(bytes: &Vec<u8>) -> (r: Option<Connect4>)
    ensures
        match decoded(bytes@) {
            Some(p) => r matches Some(g) && g.wf() && g.board@ == p.0 && g.next_player == p.1,
            None => r is None,
        },
{
    let head = head_bytes();
    if !bytes_at(bytes, 0, head.as_slice()) {
        proof {
            assert forall|b: Seq<Option<usize>>, n: usize| position_valid(b, n) implies state_json(b, n) != bytes@ by {
                if state_json(b, n) == bytes@ {
                    assert(bytes@.subrange(0, 10) =~= json_head());
                }
            }
        }
        return None;
    }
    let total = bytes.len();
    let mut d: Vec<Option<usize>> = Vec::new();
    let mut pos: usize = 10;
    let mut i: usize = 0;
    assert(bytes@.subrange(0, 10) =~= json_head() + cells_json(d@));
    while i < CELLS
        invariant
            total == bytes@.len(),
            0 <= i <= 42,
            d@.len() == i,
            cells_valid(d@),
            pos <= bytes@.len(),
            bytes@.subrange(0, pos as int) == json_head() + cells_json(d@),
            forall|b: Seq<Option<usize>>, n: usize| position_valid(b, n) && state_json(b, n) == bytes@
                ==> d@ == b.subrange(0, i as int),
        decreases 42 - i,
    {
        let ghost before = d@;
        let ghost start = pos;
        let sep: [u8; 1] = [44];
        let sep_len: usize = if i > 0 { 1 } else { 0 };
        if i > 0 {
            if !bytes_at(bytes, pos, sep.as_slice()) {
                proof {
                    assert forall|b: Seq<Option<usize>>, n: usize| position_valid(b, n) implies state_json(b, n) != bytes@ by {
                        if state_json(b, n) == bytes@ {
                            lemma_json_at(b, n, i as int);
                            assert(d@ == b.subrange(0, i as int));
                            assert(bytes@.subrange(0, pos as int).len() == pos);
                            assert(cell_offset(b, i as int) == pos);
                            let chunk = separator(i as int) + cell_token(b[i as int]);
                            assert(bytes@.subrange(pos as int, pos + chunk.len()) == chunk);
                            assert(bytes@.subrange(pos as int, pos + 1) =~= bytes@.subrange(pos as int, pos + chunk.len()).subrange(0, 1));
                            assert(chunk.subrange(0, 1) =~= seq![44u8]);
                            assert(sep@ =~= seq![44u8]);
                        }
                    }
                }
                return None;
            }
        }
        let tpos = pos + sep_len;
        match token_at(bytes, tpos) {
            None => {
                proof {
                    assert forall|b: Seq<Option<usize>>, n: usize| position_valid(b, n) implies state_json(b, n) != bytes@ by {
                        if state_json(b, n) == bytes@ {
                            lemma_json_at(b, n, i as int);
                            let c = b[i as int];
                            assert(c matches Some(p) ==> p < 2);
                            let chunk = separator(i as int) + cell_token(c);
                            let st = cell_offset(b, i as int);
                            assert(d@ == b.subrange(0, i as int));
                            assert(bytes@.subrange(0, pos as int).len() == pos);
                            assert(st == pos);
                            assert(bytes@.subrange(tpos as int, tpos + cell_token(c).len()) =~= bytes@.subrange(st, st + chunk.len()).subrange(sep_len as int, chunk.len() as int));
                            assert(chunk.subrange(sep_len as int, chunk.len() as int) =~= cell_token(c));
                        }
                    }
                }
                return None;
            },
            Some(c) => {
                let len: usize = if c.is_some() { 1 } else { 4 };
                proof {
                    lemma_cells_push(before.push(c), i as int);
                    assert(before.push(c).subrange(0, i as int) =~= before);
                    assert(before.push(c).subrange(0, i as int + 1) =~= before.push(c));
                    assert(bytes@.subrange(0, (tpos + len) as int) =~= bytes@.subrange(0, pos as int)
                        + bytes@.subrange(pos as int, tpos as int) + bytes@.subrange(tpos as int, (tpos + len) as int));
                    if i > 0 {
                        assert(bytes@.subrange(pos as int, tpos as int) =~= seq![44u8]);
                    } else {
                        assert(bytes@.subrange(pos as int, tpos as int) =~= Seq::<u8>::empty());
                    }
                    assert forall|b: Seq<Option<usize>>, n: usize| position_valid(b, n) && state_json(b, n) == bytes@
                        implies before.push(c) == b.subrange(0, i as int + 1) by {
                        lemma_json_at(b, n, i as int);
                        let cb = b[i as int];
                        assert(cb matches Some(p) ==> p < 2);
                        let chunk = separator(i as int) + cell_token(cb);
                        let st = cell_offset(b, i as int);
                        assert(bytes@[tpos as int] == bytes@.subrange(st, st + chunk.len())[sep_len as int]);
                        assert(bytes@[tpos as int] == cell_token(c)[0]);
                        assert(chunk[sep_len as int] == cell_token(cb)[0]);
                        assert(c == cb);
                        assert(b.subrange(0, i as int + 1) =~= b.subrange(0, i as int).push(cb));
                    }
                }
                d.push(c);
                pos = tpos + len;
            },
        }
        i = i + 1;
    }
    let middle = middle_bytes();
    let ok_tail = bytes_at(bytes, pos, middle.as_slice()) && bytes.len() >= 2 && pos + 16 == bytes.len() - 2
        && (bytes[pos + 16] == 48u8 || bytes[pos + 16] == 49u8) && bytes[pos + 17] == 125u8;
    if !ok_tail {
        proof {
            assert forall|b: Seq<Option<usize>>, n: usize| position_valid(b, n) implies state_json(b, n) != bytes@ by {
                if state_json(b, n) == bytes@ {
                    assert(d@ == b.subrange(0, 42));
                    assert(b.subrange(0, 42) =~= b);
                    lemma_json_end(b, n);
                    let x = bytes@;
                    assert(x.subrange(pos as int, x.len() as int) == json_tail(n));
                    assert(json_tail(n).len() == 18);
                    assert(x.subrange(pos as int, pos + 16) =~= json_tail(n).subrange(0, 16));
                    assert(json_tail(n).subrange(0, 16) =~= json_middle());
                    assert(middle@ == json_middle());
                    assert(x[pos + 16] == json_tail(n)[16]);
                    assert(x[pos + 17] == json_tail(n)[17]);
                }
            }
        }
        return None;
    }
    let next_player: usize = (bytes[pos + 16] - 48) as usize;
    let g = Connect4 { board: d, next_player };
    proof {
        assert(bytes@ =~= bytes@.subrange(0, pos as int) + bytes@.subrange(pos as int, pos + 16)
            + seq![bytes@[pos + 16], bytes@[pos + 17]]);
        assert(bytes@ =~= state_json(g.board@, next_player));
        lemma_state_round_trip(g.board@, next_player);
    }
    Some(g)
}

} // verus!
