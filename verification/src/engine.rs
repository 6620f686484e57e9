//! The composition engine: the rolling buffer, the diacritic matcher, the
//! vowel selector, the accent applier, the edit synthesizer, and the key
//! dispatcher tying them together.

use vstd::prelude::*;
use crate::chars::{ascii_upper, fold, is_upper, strip_tone, tone_marked, Tone};
use crate::chars::{clean_char, is_upper_char, remove_tone, to_lower_char, to_upper_char, tone_char};
use crate::keys::{KeyKind, KeyState, PhysicKey};
use crate::rules::{
    breve_matches, breve_rules, circumflex_matches, circumflex_rules, crossed_d_matches,
    crossed_d_rules, horn_matches, horn_rules, rule_applies, views_of, DiacriticMatch, Rule,
};

verus! {

/// One edit operation for the host text field: delete that many characters
/// immediately before the cursor, or insert one character at the cursor.
#[derive(Clone, Copy, PartialEq, Eq, Structural, Debug)]
pub enum Action {
    Backspace(usize),
    Insert(char),
}

/// The insert operation for one character.
pub open spec fn insert_op(c: char) -> Action {
    Action::Insert(c)
}

/// The backspace operation deleting `n` characters.
pub open spec fn backspace_op(n: int) -> Action {
    Action::Backspace(n as usize)
}

/// The edit operations that rewrite position `i` of `buf` to `c`: delete
/// everything from `i` to the end (one character more on the first edit of a
/// key event, to erase the trigger character the host has already put into
/// the field), insert the replacement, then re-insert the suffix.
pub open spec fn synth_ops(buf: Seq<char>, i: int, c: char, first: bool) -> Seq<Action>
    recommends
        0 <= i < buf.len(),
        buf.len() < usize::MAX,
{
    let amount = buf.len() - i + if first { 1int } else { 0int };
    seq![backspace_op(amount), insert_op(c)]
        + buf.subrange(i + 1, buf.len() as int).map_values(|x: char| insert_op(x))
}

/// The replacement a rule yields for the original character `orig`:
/// its upper-case form when `orig` is upper case, else its lower-case form.
pub open spec fn pick_case(r: Rule, orig: char) -> char {
    if is_upper(orig) {
        r.upper
    } else {
        r.lower
    }
}

/// The state of a diacritic scan: the buffer so far, the operations
/// emitted so far, and whether the next rewrite would be the first of the
/// key event.
#[verifier::ext_equal]
pub struct ScanState {
    pub buf: Seq<char>,
    pub steps: Seq<Action>,
    pub first: bool,
}

/// A scan state from its parts.
pub open spec fn scan_state(buf: Seq<char>, steps: Seq<Action>, first: bool) -> ScanState {
    ScanState { buf: buf, steps: steps, first: first }
}

/// The first `k` rules of `rs` tried at position `i`.  A rule fires on the
/// characters of the original buffer; each firing rule rewrites the
/// position and appends the synthesized edits, and only the first rewrite
/// of the whole call carries the extra trigger-erasing backspace.
pub open spec fn rules_step(
    rs: Seq<Rule>,
    k: int,
    st: ScanState,
    i: int,
    orig: Seq<char>,
) -> ScanState
    decreases k,
{
    if k <= 0 {
        st
    } else {
        let prev = rules_step(rs, k - 1, st, i, orig);
        let r = rs[k - 1];
        if rule_applies(r, orig, i) {
            let c = pick_case(r, orig[i]);
            scan_state(
                prev.buf.update(i, c),
                prev.steps + synth_ops(prev.buf, i, c, prev.first),
                false,
            )
        } else {
            prev
        }
    }
}

/// The diacritic scan over the first `i` positions of `orig`, all rules
/// tried at each position in order.
pub open spec fn scan_upto(rs: Seq<Rule>, orig: Seq<char>, i: int) -> ScanState
    decreases i,
{
    if i <= 0 {
        scan_state(orig, Seq::empty(), true)
    } else {
        rules_step(rs, rs.len() as int, scan_upto(rs, orig, i - 1), i - 1, orig)
    }
}

/// The full diacritic scan of a buffer.
pub open spec fn scan_all(rs: Seq<Rule>, orig: Seq<char>) -> ScanState {
    scan_upto(rs, orig, orig.len() as int)
}

/// A selected vowel: its character and its buffer position.
pub open spec fn sel(c: char, i: int) -> Option<(char, int)> {
    Option::Some((c, i))
}

/// A running plain-vowel candidate: its priority rank and its position.
pub open spec fn cand(r: int, i: int) -> Option<(int, int)> {
    Option::Some((r, i))
}

/// The view of an executable selection result.
pub open spec fn sel_view(r: Option<(char, usize)>) -> Option<(char, int)> {
    match r {
        Option::Some(p) => sel(p.0, p.1 as int),
        Option::None => Option::None,
    }
}

/// The view of an executable plain-vowel candidate.
pub open spec fn cand_view(r: Option<(usize, usize)>) -> Option<(int, int)> {
    match r {
        Option::Some(p) => cand(p.0 as int, p.1 as int),
        Option::None => Option::None,
    }
}

/// The five shape-marked vowels that attract a tone mark, the horn-marked
/// `o` excepted, which outranks them all.
pub open spec fn is_marked_vowel(c: char) -> bool {
    match c {
        'ê' | 'â' | 'ô' | 'ă' | 'ư' | 'Ê' | 'Â' | 'Ô' | 'Ă' | 'Ư' => true,
        _ => false,
    }
}

/// The letters that form a vowel cluster after an `o`, so that the tone
/// moves onto them.
pub open spec fn is_cluster_follower(c: char) -> bool {
    match c {
        'a' | 'e' | 'o' | 'y' | 'A' | 'E' | 'O' | 'Y' => true,
        _ => false,
    }
}

/// The priority rank of a plain vowel, higher wins; `None` for any other
/// character.
pub open spec fn plain_vowel_rank(c: char) -> Option<int> {
    match c {
        'a' | 'A' => Option::Some(5int),
        'e' | 'E' => Option::Some(4int),
        'i' | 'I' => Option::Some(3int),
        'o' | 'O' => Option::Some(2int),
        'u' | 'U' => Option::Some(1int),
        'y' | 'Y' => Option::Some(0int),
        _ => Option::None,
    }
}

/// One step of the vowel scan from position `i`, carrying the last
/// shape-marked vowel seen and the best plain vowel so far.  A tone-stripped
/// horn-marked `o` wins at once; an `o` before a cluster letter hands the
/// tone to that letter; `g` followed by `i` hands it to the character after
/// the digraph; otherwise the last shape-marked vowel beats the plain-vowel
/// ranking, where only a strictly higher rank displaces an earlier choice.
pub open spec fn select_loop(
    buf: Seq<char>,
    i: int,
    dia: Option<(char, int)>,
    best: Option<(int, int)>,
) -> Option<(char, int)>
    decreases buf.len() - i,
{
    if i < 0 || i >= buf.len() {
        match dia {
            Option::Some(_) => dia,
            Option::None => match best {
                Option::Some(b) => sel(buf[b.1], b.1),
                Option::None => Option::None,
            },
        }
    } else {
        let s = strip_tone(buf[i]);
        if s == 'ơ' || s == 'Ơ' {
            sel(s, i)
        } else if is_marked_vowel(s) {
            select_loop(buf, i + 1, sel(s, i), best)
        } else if s == 'o' && i + 1 < buf.len() && is_cluster_follower(strip_tone(buf[i + 1])) {
            sel(buf[i + 1], i + 1)
        } else if s == 'g' && i + 2 < buf.len() {
            if buf[i + 1] == 'i' {
                sel(buf[i + 2], i + 2)
            } else {
                select_loop(buf, i + 1, dia, best)
            }
        } else {
            match plain_vowel_rank(s) {
                Option::Some(r) => {
                    let displace = match best {
                        Option::Some(b) => r > b.0,
                        Option::None => true,
                    };
                    if displace {
                        select_loop(buf, i + 1, dia, cand(r, i))
                    } else {
                        select_loop(buf, i + 1, dia, best)
                    }
                },
                Option::None => select_loop(buf, i + 1, dia, best),
            }
        }
    }
}

/// The vowel a tone mark attaches to, with its position, or `None` when the
/// buffer holds no vowel at all.
pub open spec fn select_spec(buf: Seq<char>) -> Option<(char, int)> {
    select_loop(buf, 0, Option::None, Option::None)
}

/// The selected position always lies inside the buffer.
pub proof fn lemma_select_loop_bounds(
    buf: Seq<char>,
    i: int,
    dia: Option<(char, int)>,
    best: Option<(int, int)>,
)
    requires
        0 <= i <= buf.len(),
        (match dia {
            Option::Some(p) => 0 <= p.1 < buf.len(),
            Option::None => true,
        }),
        (match best {
            Option::Some(p) => 0 <= p.1 < buf.len(),
            Option::None => true,
        }),
    ensures
        (match select_loop(buf, i, dia, best) {
            Option::Some(p) => 0 <= p.1 < buf.len(),
            Option::None => true,
        }),
    decreases buf.len() - i,
{
    if i < buf.len() {
        let s = strip_tone(buf[i]);
        if s == 'ơ' || s == 'Ơ' {
        } else if is_marked_vowel(s) {
            lemma_select_loop_bounds(buf, i + 1, sel(s, i), best);
        } else if s == 'o' && i + 1 < buf.len() && is_cluster_follower(strip_tone(buf[i + 1])) {
        } else if s == 'g' && i + 2 < buf.len() {
            if buf[i + 1] == 'i' {
            } else {
                lemma_select_loop_bounds(buf, i + 1, dia, best);
            }
        } else {
            match plain_vowel_rank(s) {
                Option::Some(r) => {
                    let displace = match best {
                        Option::Some(b) => r > b.0,
                        Option::None => true,
                    };
                    if displace {
                        lemma_select_loop_bounds(buf, i + 1, dia, cand(r, i));
                    } else {
                        lemma_select_loop_bounds(buf, i + 1, dia, best);
                    }
                },
                Option::None => {
                    lemma_select_loop_bounds(buf, i + 1, dia, best);
                },
            }
        }
    }
}

/// Whether a character list holds `c`.
fn contains_char(v: &Vec<char>, c: char) -> (r: bool)
    ensures
        r == v@.contains(c),
{
    let mut k: usize = 0;
    while k < v.len()
        invariant
            k <= v@.len(),
            forall|t: int| 0 <= t < k ==> v@[t] != c,
        decreases v@.len() - k,
    {
        if v[k] == c {
            return true;
        }
        k = k + 1;
    }
    false
}

/// Whether `c` is one of the shape-marked vowels of the selector's second
/// rule.
fn is_marked_char(c: char) -> (r: bool)
    ensures
        r == is_marked_vowel(c),
{
    match c {
        'ê' | 'â' | 'ô' | 'ă' | 'ư' | 'Ê' | 'Â' | 'Ô' | 'Ă' | 'Ư' => true,
        _ => false,
    }
}

/// Whether `c` may carry the tone of a preceding `o` cluster.
fn is_cluster_char(c: char) -> (r: bool)
    ensures
        r == is_cluster_follower(c),
{
    match c {
        'a' | 'e' | 'o' | 'y' | 'A' | 'E' | 'O' | 'Y' => true,
        _ => false,
    }
}

/// The view of an executable vowel rank.
pub open spec fn rank_view(r: Option<usize>) -> Option<int> {
    match r {
        Option::Some(v) => {
            let w = v as int;
            Option::Some(w)
        },
        Option::None => Option::None,
    }
}

/// The priority rank of a plain vowel.
fn rank_char(c: char) -> (r: Option<usize>)
    ensures
        rank_view(r) == plain_vowel_rank(c),
{
    match c {
        'a' | 'A' => Some(5),
        'e' | 'E' => Some(4),
        'i' | 'I' => Some(3),
        'o' | 'O' => Some(2),
        'u' | 'U' => Some(1),
        'y' | 'Y' => Some(0),
        _ => None,
    }
}

/// What one key event yields: the new buffer and the emitted operations.
#[verifier::ext_equal]
pub struct EventOut {
    pub buf: Seq<char>,
    pub acts: Seq<Action>,
}

/// An event outcome from its parts.
pub open spec fn event_out(buf: Seq<char>, acts: Seq<Action>) -> EventOut {
    EventOut { buf: buf, acts: acts }
}

/// The tone a trigger digit stands for, or `None` for any other character.
pub open spec fn tone_of(c: char) -> Option<Tone> {
    match c {
        '1' => Option::Some(Tone::Acute),
        '2' => Option::Some(Tone::Grave),
        '3' => Option::Some(Tone::HookAbove),
        '4' => Option::Some(Tone::Tilde),
        '5' => Option::Some(Tone::Dot),
        _ => Option::None,
    }
}

/// The accent applier: the selected vowel, rewritten through the tone
/// table of `tone`, always as a first edit.  Without a selected vowel, or
/// for a selected character the table does not cover, nothing changes and
/// nothing is emitted.
pub open spec fn accent_spec(buf: Seq<char>, tone: Tone) -> EventOut {
    match select_spec(buf) {
        Option::None => event_out(buf, Seq::<Action>::empty()),
        Option::Some(p) => {
            match tone_marked(tone, strip_tone(p.0)) {
                Option::None => event_out(buf, Seq::<Action>::empty()),
                Option::Some(rc) => event_out(
                    buf.update(p.1, rc),
                    synth_ops(buf, p.1, rc, true),
                ),
            }
        },
    }
}

/// The trigger dispatch on a normalized character: the four shape triggers
/// run the diacritic scan with their rule sets, the five tone triggers run
/// the accent applier, and every other character changes nothing here.
pub open spec fn dispatch_spec(buf: Seq<char>, ch: char) -> EventOut {
    if ch == '6' {
        let s = scan_all(circumflex_rules(), buf);
        event_out(s.buf, s.steps)
    } else if ch == '7' {
        let s = scan_all(horn_rules(), buf);
        event_out(s.buf, s.steps)
    } else if ch == '8' {
        let s = scan_all(breve_rules(), buf);
        event_out(s.buf, s.steps)
    } else if ch == '9' {
        let s = scan_all(crossed_d_rules(), buf);
        event_out(s.buf, s.steps)
    } else {
        match tone_of(ch) {
            Option::Some(t) => accent_spec(buf, t),
            Option::None => event_out(buf, Seq::<Action>::empty()),
        }
    }
}

/// The whole key transition.  A release changes nothing; navigation and
/// whitespace clear the composition; backspace drops the last buffered
/// character; any other press is case-normalized and dispatched, and when
/// the dispatch emits nothing, a character-producing key is appended to
/// the buffer and passed through.
pub open spec fn key_spec(buf: Seq<char>, key: PhysicKey) -> EventOut {
    match key.state {
        KeyState::KeyRelease => event_out(buf, Seq::<Action>::empty()),
        KeyState::KeyPress => {
            match key.kind {
                KeyKind::Arrow => event_out(Seq::<char>::empty(), Seq::<Action>::empty()),
                KeyKind::Whitespace => event_out(Seq::<char>::empty(), Seq::<Action>::empty()),
                KeyKind::Backspace => {
                    if buf.len() > 0 {
                        event_out(buf.drop_last(), Seq::<Action>::empty())
                    } else {
                        event_out(buf, Seq::<Action>::empty())
                    }
                },
                KeyKind::Other => {
                    let c = if key.cap {
                        ascii_upper(key.ch)
                    } else {
                        key.ch
                    };
                    let d = dispatch_spec(buf, c);
                    if d.acts.len() == 0 && c != '\0' {
                        event_out(d.buf.push(c), d.acts)
                    } else {
                        d
                    }
                },
            }
        },
    }
}

/// The VNI engine.  It owns the composition buffer: the suffix of user
/// input since the last reset, minus what backspace removed.
pub struct Vni {
    buffer: Vec<char>,
}

impl View for Vni {
    type V = Seq<char>;

    closed spec fn view(&self) -> Seq<char> {
        self.buffer@
    }
}

impl Vni {
    /// A fresh engine with an empty composition buffer.
    pub fn new() -> (r: Self)
        ensures
            r@ == Seq::<char>::empty(),
    {
        Self { buffer: Vec::new() }
    }

    /// The buffer contents, for the host to inspect.
    pub fn contents(&self) -> (r: &Vec<char>)
        ensures
            r@ == self@,
    {
        &self.buffer
    }

    /// Scans the buffer for diacritic rule matches and rewrites every
    /// matching position, returning the edit operations for the host.
    /// When nothing matches, the buffer stays as it was and no operations
    /// come back.
    pub fn add_diacritic(&mut self, matches: Vec<DiacriticMatch>) -> (steps: Vec<Action>)
        requires
            old(self)@.len() < usize::MAX,
        ensures
            final(self)@ == scan_all(views_of(matches@), old(self)@).buf,
            steps@ == scan_all(views_of(matches@), old(self)@).steps,
    {
        let ghost orig = self@;
        let ghost rs = views_of(matches@);
        let buffer_len = self.buffer.len();
        let mut steps: Vec<Action> = Vec::new();
        let mut is_first_match = true;
        let mut i: usize = 0;
        while i < buffer_len
            invariant
                i <= buffer_len,
                buffer_len == orig.len(),
                orig.len() < usize::MAX,
                rs == views_of(matches@),
                self@ == scan_upto(rs, orig, i as int).buf,
                steps@ == scan_upto(rs, orig, i as int).steps,
                is_first_match == scan_upto(rs, orig, i as int).first,
                self@.len() == orig.len(),
                forall|j: int| i <= j < orig.len() ==> self@[j] == orig[j],
            decreases buffer_len - i,
        {
            let ch = self.buffer[i];
            let next_ch = if i + 1 == buffer_len {
                ch
            } else {
                self.buffer[i + 1]
            };
            let clean_ch_lower = to_lower_char(clean_char(ch));
            let next_fold = to_lower_char(clean_char(next_ch));
            let ghost st0 = scan_upto(rs, orig, i as int);
            let mut k: usize = 0;
            while k < matches.len()
                invariant
                    k <= matches@.len(),
                    buffer_len == orig.len(),
                    orig.len() < usize::MAX,
                    i < buffer_len,
                    rs == views_of(matches@),
                    st0 == scan_upto(rs, orig, i as int),
                    ch == orig[i as int],
                    i + 1 < buffer_len ==> next_ch == orig[i + 1],
                    clean_ch_lower == fold(orig[i as int]),
                    i + 1 < buffer_len ==> next_fold == fold(orig[i + 1]),
                    self@ == rules_step(rs, k as int, st0, i as int, orig).buf,
                    steps@ == rules_step(rs, k as int, st0, i as int, orig).steps,
                    is_first_match == rules_step(rs, k as int, st0, i as int, orig).first,
                    self@.len() == orig.len(),
                    forall|j: int| i < j < orig.len() ==> self@[j] == orig[j],
                decreases matches@.len() - k,
            {
                proof {
                    assert(rs[k as int] == matches@[k as int]@);
                }
                let m = &matches[k];
                if m.ch == clean_ch_lower {
                    let pair_ok = if i + 1 == buffer_len {
                        true
                    } else {
                        contains_char(&m.pair_with, next_fold)
                    };
                    if pair_ok {
                        proof {
                            assert(rule_applies(rs[k as int], orig, i as int));
                        }
                        let replace_char = if is_upper_char(ch) {
                            m.replace_with.1
                        } else {
                            m.replace_with.0
                        };
                        let mut block = self.replace_char_at(i, replace_char, is_first_match);
                        steps.append(&mut block);
                        self.buffer.set(i, replace_char);
                        is_first_match = false;
                    } else {
                        proof {
                            assert(!rule_applies(rs[k as int], orig, i as int));
                        }
                    }
                } else {
                    proof {
                        assert(!rule_applies(rs[k as int], orig, i as int));
                    }
                }
                k = k + 1;
            }
            i = i + 1;
        }
        steps
    }

    /// The vowel a tone mark should attach to, with its buffer position.
    pub fn get_vowel_for_accent(&self) -> (r: Option<(char, usize)>)
        requires
            self@.len() < usize::MAX,
        ensures
            sel_view(r) == select_spec(self@),
            (match r {
                Option::Some(p) => p.1 < self@.len(),
                Option::None => true,
            }),
    {
        let buffer_len = self.buffer.len();
        let mut dia: Option<(char, usize)> = None;
        let mut best: Option<(usize, usize)> = None;
        let mut i: usize = 0;
        while i < buffer_len
            invariant
                i <= buffer_len,
                buffer_len == self@.len(),
                buffer_len < usize::MAX,
                (match dia {
                    Option::Some(p) => p.1 < buffer_len,
                    Option::None => true,
                }),
                (match best {
                    Option::Some(p) => p.1 < buffer_len,
                    Option::None => true,
                }),
                select_loop(self@, i as int, sel_view(dia), cand_view(best))
                    == select_spec(self@),
            decreases buffer_len - i,
        {
            let ch = self.buffer[i];
            let s = remove_tone(ch);
            if s == 'ơ' || s == 'Ơ' {
                return Some((s, i));
            } else if is_marked_char(s) {
                dia = Some((s, i));
            } else if s == 'o' && i + 1 < buffer_len
                && is_cluster_char(remove_tone(self.buffer[i + 1])) {
                return Some((self.buffer[i + 1], i + 1));
            } else if s == 'g' && i + 2 < buffer_len {
                if self.buffer[i + 1] == 'i' {
                    return Some((self.buffer[i + 2], i + 2));
                }
            } else {
                match rank_char(s) {
                    Some(r) => {
                        let displace = match best {
                            Some(b) => r > b.0,
                            None => true,
                        };
                        if displace {
                            best = Some((r, i));
                        }
                    },
                    None => {},
                }
            }
            i = i + 1;
        }
        match dia {
            Some(p) => Some(p),
            None => match best {
                Some(b) => Some((self.buffer[b.1], b.1)),
                None => None,
            },
        }
    }

    /// Applies a tone mark: selects the vowel, looks its tone-stripped
    /// form up in the tone table, and rewrites that single position as a
    /// first edit.
    pub fn add_accent(&mut self, tone: Tone) -> (steps: Vec<Action>)
        requires
            old(self)@.len() < usize::MAX,
        ensures
            final(self)@ == accent_spec(old(self)@, tone).buf,
            steps@ == accent_spec(old(self)@, tone).acts,
    {
        let vowel = self.get_vowel_for_accent();
        if let Some(v) = vowel {
            let ch = v.0;
            let index = v.1;
            if let Some(replace_ch) = tone_char(tone, remove_tone(ch)) {
                let steps = self.replace_char_at(index, replace_ch, true);
                self.buffer.set(index, replace_ch);
                return steps;
            }
        }
        Vec::new()
    }

    /// Runs a normalized character through the trigger dispatch.
    pub fn handle_normal_char(&mut self, ch: char) -> (steps: Vec<Action>)
        requires
            old(self)@.len() < usize::MAX,
        ensures
            final(self)@ == dispatch_spec(old(self)@, ch).buf,
            steps@ == dispatch_spec(old(self)@, ch).acts,
    {
        match ch {
            '6' => self.add_diacritic(circumflex_matches()),
            '7' => self.add_diacritic(horn_matches()),
            '8' => self.add_diacritic(breve_matches()),
            '9' => self.add_diacritic(crossed_d_matches()),
            '1' => self.add_accent(Tone::Acute),
            '2' => self.add_accent(Tone::Grave),
            '3' => self.add_accent(Tone::HookAbove),
            '4' => self.add_accent(Tone::Tilde),
            '5' => self.add_accent(Tone::Dot),
            _ => Vec::new(),
        }
    }

    /// Consumes one key event: clears the buffer on navigation or
    /// whitespace, pops it on backspace, and otherwise dispatches the
    /// case-normalized character, appending it when it was no trigger.
    /// The returned operations, applied in order by the host, keep the
    /// text field in step with the buffer; an empty sequence means the raw
    /// keystroke passes through untouched.
    pub fn handle_key(&mut self, key: PhysicKey) -> (actions: Vec<Action>)
        requires
            old(self)@.len() < usize::MAX,
        ensures
            final(self)@ == key_spec(old(self)@, key).buf,
            actions@ == key_spec(old(self)@, key).acts,
    {
        match key.state {
            KeyState::KeyRelease => Vec::new(),
            KeyState::KeyPress => {
                if key.is_arrow() || key.is_whitespace() {
                    self.buffer.clear();
                    Vec::new()
                } else if key.is_backspace() {
                    let _ = self.buffer.pop();
                    proof {
                        if old(self)@.len() > 0 {
                            assert(self@ =~= old(self)@.drop_last());
                        }
                    }
                    Vec::new()
                } else {
                    let ch = if key.cap {
                        to_upper_char(key.ch)
                    } else {
                        key.ch
                    };
                    let actions = self.handle_normal_char(ch);
                    if actions.len() == 0 && ch != '\0' {
                        self.buffer.push(ch);
                    }
                    actions
                }
            },
        }
    }

    /// Edit synthesis for rewriting `index` to `ch`.  The buffer is read,
    /// not changed: the caller performs the in-buffer rewrite itself.
    pub fn replace_char_at(&mut self, index: usize, ch: char, is_first_edit: bool)
        -> (steps: Vec<Action>)
        requires
            index < old(self)@.len(),
            old(self)@.len() < usize::MAX,
        ensures
            final(self)@ == old(self)@,
            steps@ == synth_ops(old(self)@, index as int, ch, is_first_edit),
    {
        let buffer_len = self.buffer.len();
        let mut backspace_amount: usize = buffer_len - index;
        if is_first_edit {
            backspace_amount = backspace_amount + 1;
        }
        let mut steps: Vec<Action> = Vec::new();
        steps.push(Action::Backspace(backspace_amount));
        steps.push(Action::Insert(ch));
        let ghost head = seq![Action::Backspace(backspace_amount), Action::Insert(ch)];
        proof {
            assert(steps@ =~= head + self@.subrange(index + 1, index + 1).map_values(
                |x: char| insert_op(x),
            ));
        }
        let mut j: usize = index + 1;
        while j < buffer_len
            invariant
                index + 1 <= j <= buffer_len,
                buffer_len == self@.len(),
                steps@ == head + self@.subrange(index + 1, j as int).map_values(
                    |x: char| insert_op(x),
                ),
            decreases buffer_len - j,
        {
            steps.push(Action::Insert(self.buffer[j]));
            proof {
                assert(self@.subrange(index + 1, j + 1).map_values(|x: char| insert_op(x))
                    =~= self@.subrange(index + 1, j as int).map_values(
                        |x: char| insert_op(x),
                    ).push(insert_op(self@[j as int])));
                assert(steps@ =~= head + self@.subrange(index + 1, j + 1).map_values(
                    |x: char| insert_op(x),
                ));
            }
            j = j + 1;
        }
        proof {
            assert(steps@ =~= synth_ops(self@, index as int, ch, is_first_edit));
        }
        steps
    }
}

} // verus!
