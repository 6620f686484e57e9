//! The engine's laws: a model of a host text field consuming edit
//! operations, and proofs that the engine's output keeps that field equal
//! to the composition buffer.

use vstd::prelude::*;
use crate::chars::ascii_upper;
use crate::engine::{
    backspace_op, dispatch_spec, insert_op, key_spec, lemma_select_loop_bounds, pick_case,
    rules_step, scan_all, scan_upto, select_spec, synth_ops, tone_of, Action, ScanState,
};
use crate::keys::{KeyKind, KeyState, PhysicKey};
use crate::rules::{rule_applies, Rule};

verus! {

/// One edit operation applied to the trailing content of a text field.
/// A backspace of more than the field holds clears the field.
pub open spec fn apply_op(field: Seq<char>, op: Action) -> Seq<char> {
    match op {
        Action::Backspace(n) => {
            if n <= field.len() {
                field.take(field.len() - n)
            } else {
                Seq::empty()
            }
        },
        Action::Insert(c) => field.push(c),
    }
}

/// An operation sequence applied to a text field, in order.
pub open spec fn apply_ops(field: Seq<char>, ops: Seq<Action>) -> Seq<char>
    decreases ops.len(),
{
    if ops.len() == 0 {
        field
    } else {
        apply_ops(apply_op(field, ops.first()), ops.drop_first())
    }
}

/// Applying a concatenation applies the two parts in turn.
pub proof fn lemma_apply_ops_concat(field: Seq<char>, a: Seq<Action>, b: Seq<Action>)
    ensures
        apply_ops(field, a + b) == apply_ops(apply_ops(field, a), b),
    decreases a.len(),
{
    if a.len() == 0 {
        assert(a + b =~= b);
    } else {
        assert((a + b).drop_first() =~= a.drop_first() + b);
        lemma_apply_ops_concat(apply_op(field, a.first()), a.drop_first(), b);
    }
}

/// Applying a pure insert sequence appends those characters.
pub proof fn lemma_apply_inserts(field: Seq<char>, cs: Seq<char>)
    ensures
        apply_ops(field, cs.map_values(|x: char| insert_op(x))) == field + cs,
    decreases cs.len(),
{
    let ops = cs.map_values(|x: char| insert_op(x));
    if cs.len() == 0 {
        assert(field + cs =~= field);
    } else {
        assert(ops.drop_first() =~= cs.drop_first().map_values(|x: char| insert_op(x)));
        lemma_apply_inserts(field.push(cs.first()), cs.drop_first());
        assert(field.push(cs.first()) + cs.drop_first() =~= field + cs);
    }
}

/// Applying one synthesized rewrite: the field loses everything from the
/// rewritten position on (and the trailing trigger character on a first
/// edit), gains the replacement, then the suffix of the buffer the rewrite
/// was synthesized from.
pub proof fn lemma_synth_apply(field: Seq<char>, base: Seq<char>, i: int, c: char, first: bool)
    requires
        0 <= i < base.len(),
        base.len() < usize::MAX,
        field.len() == base.len() + if first { 1int } else { 0int },
    ensures
        apply_ops(field, synth_ops(base, i, c, first))
            == field.take(i) + seq![c] + base.subrange(i + 1, base.len() as int),
{
    let amount = base.len() - i + if first { 1int } else { 0int };
    let head = seq![backspace_op(amount), insert_op(c)];
    let suffix = base.subrange(i + 1, base.len() as int);
    let tail = suffix.map_values(|x: char| insert_op(x));
    assert(synth_ops(base, i, c, first) == head + tail);
    lemma_apply_ops_concat(field, head, tail);
    let cut = apply_op(field, backspace_op(amount));
    assert(cut =~= field.take(i));
    let one = seq![insert_op(c)];
    assert(head.first() == backspace_op(amount));
    assert(head.drop_first() =~= one);
    assert(apply_ops(field, head) == apply_ops(cut, one));
    assert(one.first() == insert_op(c));
    assert(one.drop_first().len() == 0);
    assert(apply_ops(cut, one) == apply_ops(cut.push(c), one.drop_first()));
    assert(apply_ops(cut.push(c), one.drop_first()) == cut.push(c));
    assert(apply_ops(field, head) == cut.push(c));
    lemma_apply_inserts(cut.push(c), suffix);
    assert(field.take(i).push(c) + suffix =~= field.take(i) + seq![c] + suffix);
}

/// The inner rule loop keeps the scan's running guarantees: the buffer
/// keeps its length and its unscanned positions, no emitted operation
/// sequence is empty after a rewrite, and replaying the operations on a
/// field that held the original buffer plus the trigger character yields
/// the rewritten buffer.
pub proof fn lemma_rules_round_trip(
    rs: Seq<Rule>,
    k: int,
    st: ScanState,
    i: int,
    orig: Seq<char>,
    t: char,
)
    requires
        0 <= i < orig.len(),
        0 <= k <= rs.len(),
        orig.len() < usize::MAX,
        st.buf.len() == orig.len(),
        forall|j: int| i <= j < orig.len() ==> st.buf[j] == orig[j],
        st.first ==> st.steps == Seq::<Action>::empty() && st.buf == orig,
        !st.first ==> apply_ops(orig.push(t), st.steps) == st.buf && st.steps.len() > 0,
    ensures
        ({
            let out = rules_step(rs, k, st, i, orig);
            out.buf.len() == orig.len()
            && (forall|j: int| i < j < orig.len() ==> out.buf[j] == orig[j])
            && (out.first ==> out.steps == Seq::<Action>::empty() && out.buf == orig)
            && (!out.first ==> apply_ops(orig.push(t), out.steps) == out.buf
                && out.steps.len() > 0)
        }),
    decreases k,
{
    if k > 0 {
        lemma_rules_round_trip(rs, k - 1, st, i, orig, t);
        let prev = rules_step(rs, k - 1, st, i, orig);
        let r = rs[k - 1];
        if rule_applies(r, orig, i) {
            let c = pick_case(r, orig[i]);
            let block = synth_ops(prev.buf, i, c, prev.first);
            lemma_apply_ops_concat(orig.push(t), prev.steps, block);
            if prev.first {
                assert(prev.steps + block =~= block);
                lemma_synth_apply(orig.push(t), orig, i, c, true);
                assert(orig.push(t).take(i) =~= orig.take(i));
                assert(orig.take(i) + seq![c] + orig.subrange(i + 1, orig.len() as int)
                    =~= orig.update(i, c));
            } else {
                lemma_synth_apply(prev.buf, prev.buf, i, c, false);
                assert(prev.buf.take(i) + seq![c]
                    + prev.buf.subrange(i + 1, prev.buf.len() as int)
                    =~= prev.buf.update(i, c));
            }
        }
    }
}

/// The whole diacritic scan keeps the same guarantees over every scanned
/// prefix.
pub proof fn lemma_scan_round_trip(rs: Seq<Rule>, orig: Seq<char>, i: int, t: char)
    requires
        0 <= i <= orig.len(),
        orig.len() < usize::MAX,
    ensures
        ({
            let s = scan_upto(rs, orig, i);
            s.buf.len() == orig.len()
            && (forall|j: int| i <= j < orig.len() ==> s.buf[j] == orig[j])
            && (s.first ==> s.steps == Seq::<Action>::empty() && s.buf == orig)
            && (!s.first ==> apply_ops(orig.push(t), s.steps) == s.buf && s.steps.len() > 0)
        }),
    decreases i,
{
    if i > 0 {
        lemma_scan_round_trip(rs, orig, i - 1, t);
        lemma_rules_round_trip(rs, rs.len() as int, scan_upto(rs, orig, i - 1), i - 1, orig, t);
    }
}

/// Dispatch that emits no operation leaves the buffer untouched.
pub proof fn lemma_silent_dispatch_keeps_buffer(buf: Seq<char>, c: char)
    requires
        buf.len() < usize::MAX,
        dispatch_spec(buf, c).acts.len() == 0,
    ensures
        dispatch_spec(buf, c).buf == buf,
{
    if c == '6' || c == '7' || c == '8' || c == '9' {
        let rs = if c == '6' {
            crate::rules::circumflex_rules()
        } else if c == '7' {
            crate::rules::horn_rules()
        } else if c == '8' {
            crate::rules::breve_rules()
        } else {
            crate::rules::crossed_d_rules()
        };
        lemma_scan_round_trip(rs, buf, buf.len() as int, c);
        let s = scan_all(rs, buf);
        assert(s.steps.len() == 0);
        assert(s.first);
    }
}

/// Pass-through: a character-producing key whose dispatch finds no
/// diacritic or accent rule to apply leaves `handle_key` with the old
/// buffer plus that character, and no operations.
pub proof fn lemma_pass_through(buf: Seq<char>, key: PhysicKey)
    requires
        buf.len() < usize::MAX,
        key.state == KeyState::KeyPress,
        key.kind == KeyKind::Other,
        ({
            let c = if key.cap { ascii_upper(key.ch) } else { key.ch };
            c != '\0' && dispatch_spec(buf, c).acts.len() == 0
        }),
    ensures
        ({
            let c = if key.cap { ascii_upper(key.ch) } else { key.ch };
            key_spec(buf, key).buf == buf.push(c)
        }),
        key_spec(buf, key).acts.len() == 0,
{
    let c = if key.cap { ascii_upper(key.ch) } else { key.ch };
    lemma_silent_dispatch_keeps_buffer(buf, c);
}

/// A letter or any other non-trigger character never makes the dispatch
/// emit anything, so with the previous law it is always passed through.
pub proof fn lemma_letter_is_silent(buf: Seq<char>, c: char)
    requires
        c != '6' && c != '7' && c != '8' && c != '9',
        tone_of(c) is None,
    ensures
        dispatch_spec(buf, c).acts.len() == 0,
        dispatch_spec(buf, c).buf == buf,
{
}

/// Buffer reset: a whitespace or navigation press empties the buffer and
/// emits nothing, whatever the buffer held.
pub proof fn lemma_reset(buf: Seq<char>, key: PhysicKey)
    requires
        key.state == KeyState::KeyPress,
        key.kind == KeyKind::Arrow || key.kind == KeyKind::Whitespace,
    ensures
        key_spec(buf, key).buf == Seq::<char>::empty(),
        key_spec(buf, key).acts.len() == 0,
{
}

/// Round trip: when a key event emits operations, replaying them on a
/// text field that held the old buffer plus the trigger character the
/// host had already committed yields exactly the new buffer.
pub proof fn lemma_round_trip(buf: Seq<char>, key: PhysicKey)
    requires
        buf.len() < usize::MAX,
        key.state == KeyState::KeyPress,
        key.kind == KeyKind::Other,
        key_spec(buf, key).acts.len() > 0,
    ensures
        ({
            let c = if key.cap { ascii_upper(key.ch) } else { key.ch };
            apply_ops(buf.push(c), key_spec(buf, key).acts) == key_spec(buf, key).buf
        }),
{
    let c = if key.cap { ascii_upper(key.ch) } else { key.ch };
    let d = dispatch_spec(buf, c);
    assert(key_spec(buf, key) == d);
    if c == '6' || c == '7' || c == '8' || c == '9' {
        let rs = if c == '6' {
            crate::rules::circumflex_rules()
        } else if c == '7' {
            crate::rules::horn_rules()
        } else if c == '8' {
            crate::rules::breve_rules()
        } else {
            crate::rules::crossed_d_rules()
        };
        lemma_scan_round_trip(rs, buf, buf.len() as int, c);
        let s = scan_all(rs, buf);
        assert(!s.first);
    } else {
        match tone_of(c) {
            Option::Some(tone) => {
                lemma_select_loop_bounds(buf, 0, Option::None, Option::None);
                match select_spec(buf) {
                    Option::Some(p) => {
                        match crate::chars::tone_marked(tone, crate::chars::strip_tone(p.0)) {
                            Option::Some(rc) => {
                                lemma_synth_apply(buf.push(c), buf, p.1, rc, true);
                                assert(buf.push(c).take(p.1) =~= buf.take(p.1));
                                assert(buf.take(p.1) + seq![rc]
                                    + buf.subrange(p.1 + 1, buf.len() as int)
                                    =~= buf.update(p.1, rc));
                            },
                            Option::None => {},
                        }
                    },
                    Option::None => {},
                }
            },
            Option::None => {},
        }
    }
}

} // verus!
