use vni::{Action, KeyKind, KeyState, PhysicKey, Vni};

fn press(ch: char) -> PhysicKey {
    PhysicKey { ch, cap: false, state: KeyState::KeyPress, kind: KeyKind::Other }
}

fn press_cap(ch: char) -> PhysicKey {
    PhysicKey { ch, cap: true, state: KeyState::KeyPress, kind: KeyKind::Other }
}

fn whitespace() -> PhysicKey {
    PhysicKey { ch: ' ', cap: false, state: KeyState::KeyPress, kind: KeyKind::Whitespace }
}

fn arrow() -> PhysicKey {
    PhysicKey { ch: '\0', cap: false, state: KeyState::KeyPress, kind: KeyKind::Arrow }
}

fn backspace() -> PhysicKey {
    PhysicKey { ch: '\0', cap: false, state: KeyState::KeyPress, kind: KeyKind::Backspace }
}

fn type_chars(v: &mut Vni, s: &[char]) {
    for &c in s {
        v.handle_key(press(c));
    }
}

/// What a host text field does with the emitted operations.
fn apply_ops(field: &mut Vec<char>, ops: &[Action]) {
    for op in ops {
        match op {
            Action::Backspace(n) => {
                for _ in 0..*n {
                    field.pop();
                }
            }
            Action::Insert(c) => field.push(*c),
        }
    }
}

/// A whole session against a simulated text field: the host commits every
/// produced character first, then applies whatever the engine emits.
fn run_session(keys: &[char]) -> (Vni, Vec<char>) {
    let mut v = Vni::new();
    let mut field: Vec<char> = Vec::new();
    for &c in keys {
        field.push(c);
        let ops = v.handle_key(press(c));
        if !ops.is_empty() {
            // the operations already erase the committed trigger character
            apply_ops(&mut field, &ops);
        }
    }
    (v, field)
}

#[test]
fn pass_through_letters() {
    let mut v = Vni::new();
    for (n, &c) in ['b', 'a', 'n'].iter().enumerate() {
        let ops = v.handle_key(press(c));
        assert!(ops.is_empty());
        assert_eq!(v.contents().len(), n + 1);
    }
    assert_eq!(v.contents(), &vec!['b', 'a', 'n']);
}

#[test]
fn reset_on_whitespace() {
    let mut v = Vni::new();
    type_chars(&mut v, &['x', 'y', 'z']);
    let ops = v.handle_key(whitespace());
    assert!(ops.is_empty());
    assert!(v.contents().is_empty());
}

#[test]
fn reset_on_arrow() {
    let mut v = Vni::new();
    type_chars(&mut v, &['m', 'o', 't']);
    let ops = v.handle_key(arrow());
    assert!(ops.is_empty());
    assert!(v.contents().is_empty());
}

#[test]
fn circumflex_first_edit() {
    let mut v = Vni::new();
    type_chars(&mut v, &['a']);
    let ops = v.handle_key(press('6'));
    assert_eq!(v.contents(), &vec!['â']);
    assert_eq!(ops, vec![Action::Backspace(2), Action::Insert('â')]);
}

#[test]
fn pairing_rejection_matcher() {
    let mut v = Vni::new();
    type_chars(&mut v, &['a', 'q']);
    let ops = v.handle_normal_char('6');
    assert!(ops.is_empty());
    assert_eq!(v.contents(), &vec!['a', 'q']);
}

#[test]
fn pairing_rejection_appends_trigger() {
    let mut v = Vni::new();
    type_chars(&mut v, &['a', 'q']);
    let ops = v.handle_key(press('6'));
    assert!(ops.is_empty());
    // the unmatched trigger becomes an ordinary literal character
    assert_eq!(v.contents(), &vec!['a', 'q', '6']);
}

#[test]
fn vowel_precedence_horned_o() {
    let mut v = Vni::new();
    type_chars(&mut v, &['t', 'h', 'ư', 'ơ', 'n', 'g']);
    let ops = v.handle_key(press('1'));
    assert_eq!(v.contents(), &vec!['t', 'h', 'ư', 'ớ', 'n', 'g']);
    assert_eq!(
        ops,
        vec![
            Action::Backspace(4),
            Action::Insert('ớ'),
            Action::Insert('n'),
            Action::Insert('g'),
        ]
    );
}

#[test]
fn cluster_rule_oa() {
    let mut v = Vni::new();
    type_chars(&mut v, &['h', 'o', 'a']);
    let ops = v.handle_key(press('1'));
    assert_eq!(v.contents(), &vec!['h', 'o', 'á']);
    assert_eq!(ops, vec![Action::Backspace(2), Action::Insert('á')]);
}

#[test]
fn suffix_preserved_on_internal_rewrite() {
    let mut v = Vni::new();
    type_chars(&mut v, &['t', 'o', 'a', 'n']);
    let ops = v.handle_key(press('1'));
    assert_eq!(v.contents(), &vec!['t', 'o', 'á', 'n']);
    assert_eq!(
        ops,
        vec![Action::Backspace(3), Action::Insert('á'), Action::Insert('n')]
    );
}

#[test]
fn round_trip_simple_word() {
    let (v, field) = run_session(&['a', 'n', 'a', '6']);
    assert_eq!(v.contents(), &vec!['â', 'n', 'â']);
    assert_eq!(&field, v.contents());
}

#[test]
fn round_trip_full_word() {
    let (v, field) = run_session(&['t', 'h', 'u', 'o', 'n', 'g', '7', '1']);
    assert_eq!(v.contents(), &vec!['t', 'h', 'ư', 'ớ', 'n', 'g']);
    assert_eq!(&field, v.contents());
}

#[test]
fn multi_match_single_trigger() {
    let mut v = Vni::new();
    type_chars(&mut v, &['a', 'n', 'a']);
    let ops = v.handle_key(press('6'));
    assert_eq!(v.contents(), &vec!['â', 'n', 'â']);
    assert_eq!(
        ops,
        vec![
            Action::Backspace(4),
            Action::Insert('â'),
            Action::Insert('n'),
            Action::Insert('a'),
            Action::Backspace(1),
            Action::Insert('â'),
        ]
    );
}

#[test]
fn horn_rewrites_both_vowels() {
    let mut v = Vni::new();
    type_chars(&mut v, &['t', 'h', 'u', 'o', 'n', 'g']);
    let ops = v.handle_key(press('7'));
    assert_eq!(v.contents(), &vec!['t', 'h', 'ư', 'ơ', 'n', 'g']);
    assert_eq!(
        ops,
        vec![
            Action::Backspace(5),
            Action::Insert('ư'),
            Action::Insert('o'),
            Action::Insert('n'),
            Action::Insert('g'),
            Action::Backspace(3),
            Action::Insert('ơ'),
            Action::Insert('n'),
            Action::Insert('g'),
        ]
    );
}

#[test]
fn backspace_pops_and_empty_is_noop() {
    let mut v = Vni::new();
    type_chars(&mut v, &['a', 'b']);
    assert!(v.handle_key(backspace()).is_empty());
    assert_eq!(v.contents(), &vec!['a']);
    assert!(v.handle_key(backspace()).is_empty());
    assert!(v.contents().is_empty());
    assert!(v.handle_key(backspace()).is_empty());
    assert!(v.contents().is_empty());
}

#[test]
fn release_is_ignored() {
    let mut v = Vni::new();
    type_chars(&mut v, &['a']);
    let key = PhysicKey { ch: 'b', cap: false, state: KeyState::KeyRelease, kind: KeyKind::Other };
    let ops = v.handle_key(key);
    assert!(ops.is_empty());
    assert_eq!(v.contents(), &vec!['a']);
}

#[test]
fn no_char_key_leaves_buffer() {
    let mut v = Vni::new();
    type_chars(&mut v, &['a']);
    let ops = v.handle_key(press('\0'));
    assert!(ops.is_empty());
    assert_eq!(v.contents(), &vec!['a']);
}

#[test]
fn cap_modifier_uppercases() {
    let mut v = Vni::new();
    v.handle_key(press_cap('a'));
    assert_eq!(v.contents(), &vec!['A']);
    let ops = v.handle_key(press('6'));
    assert_eq!(v.contents(), &vec!['Â']);
    assert_eq!(ops, vec![Action::Backspace(2), Action::Insert('Â')]);
}

#[test]
fn tone_lands_on_marked_vowel() {
    let mut v = Vni::new();
    type_chars(&mut v, &['t', 'e', '6', 'n']);
    assert_eq!(v.contents(), &vec!['t', 'ê', 'n']);
    let ops = v.handle_key(press('1'));
    assert_eq!(v.contents(), &vec!['t', 'ế', 'n']);
    assert_eq!(
        ops,
        vec![Action::Backspace(3), Action::Insert('ế'), Action::Insert('n')]
    );
}

#[test]
fn crossed_d() {
    let mut v = Vni::new();
    type_chars(&mut v, &['d', 'i']);
    let ops = v.handle_key(press('9'));
    assert_eq!(v.contents(), &vec!['đ', 'i']);
    assert_eq!(
        ops,
        vec![Action::Backspace(3), Action::Insert('đ'), Action::Insert('i')]
    );
}

#[test]
fn breve_before_consonant() {
    let mut v = Vni::new();
    type_chars(&mut v, &['c', 'a', 'n']);
    let ops = v.handle_key(press('8'));
    assert_eq!(v.contents(), &vec!['c', 'ă', 'n']);
    assert!(!ops.is_empty());
}

#[test]
fn gi_digraph_takes_following_vowel() {
    let mut v = Vni::new();
    type_chars(&mut v, &['g', 'i', 'a']);
    let ops = v.handle_key(press('1'));
    assert_eq!(v.contents(), &vec!['g', 'i', 'á']);
    assert_eq!(ops, vec![Action::Backspace(2), Action::Insert('á')]);
}

#[test]
fn tone_trigger_without_vowel_is_literal() {
    let mut v = Vni::new();
    type_chars(&mut v, &['b', 'c']);
    let ops = v.handle_key(press('1'));
    assert!(ops.is_empty());
    assert_eq!(v.contents(), &vec!['b', 'c', '1']);
}

#[test]
fn grave_on_last_diacritic_seen() {
    // two shape-marked vowels: the later one wins the running candidate
    let mut v = Vni::new();
    type_chars(&mut v, &['â', 'b', 'ê']);
    let ops = v.handle_key(press('2'));
    assert_eq!(v.contents(), &vec!['â', 'b', 'ề']);
    assert_eq!(ops, vec![Action::Backspace(2), Action::Insert('ề')]);
}

#[test]
fn plain_vowel_ranking_prefers_a() {
    // 'u' comes first but 'a' outranks it
    let mut v = Vni::new();
    type_chars(&mut v, &['m', 'u', 'a']);
    let ops = v.handle_key(press('5'));
    assert_eq!(v.contents(), &vec!['m', 'u', 'ạ']);
    assert_eq!(ops, vec![Action::Backspace(2), Action::Insert('ạ')]);
}

#[test]
fn equal_rank_keeps_earliest() {
    let mut v = Vni::new();
    type_chars(&mut v, &['x', 'e', 'e']);
    let ops = v.handle_key(press('3'));
    assert_eq!(v.contents(), &vec!['x', 'ẻ', 'e']);
    assert_eq!(
        ops,
        vec![Action::Backspace(3), Action::Insert('ẻ'), Action::Insert('e')]
    );
}
