//! Character data for the Vietnamese alphabet: stripping tone and shape
//! marks, case handling, and the five tone tables that map a (possibly
//! shape-marked) vowel to its toned form.

use vstd::prelude::*;

verus! {

/// The five tone marks that the digit triggers place on a vowel.
#[derive(Clone, Copy, PartialEq, Eq, Structural)]
pub enum Tone {
    Acute,
    Grave,
    HookAbove,
    Tilde,
    Dot,
}

/// Removes the tone mark of a character, keeping its shape mark
/// (circumflex, breve or horn), so that `'ớ'` becomes `'ơ'`.
/// Characters outside the toned Vietnamese vowels are left unchanged.
pub open spec fn strip_tone(c: char) -> char {
    match c {
        'á' | 'à' | 'ả' | 'ã' | 'ạ' => 'a',
        'ấ' | 'ầ' | 'ẩ' | 'ẫ' | 'ậ' => 'â',
        'ắ' | 'ằ' | 'ẳ' | 'ẵ' | 'ặ' => 'ă',
        'é' | 'è' | 'ẻ' | 'ẽ' | 'ẹ' => 'e',
        'ế' | 'ề' | 'ể' | 'ễ' | 'ệ' => 'ê',
        'í' | 'ì' | 'ỉ' | 'ĩ' | 'ị' => 'i',
        'ó' | 'ò' | 'ỏ' | 'õ' | 'ọ' => 'o',
        'ố' | 'ồ' | 'ổ' | 'ỗ' | 'ộ' => 'ô',
        'ớ' | 'ờ' | 'ở' | 'ỡ' | 'ợ' => 'ơ',
        'ú' | 'ù' | 'ủ' | 'ũ' | 'ụ' => 'u',
        'ứ' | 'ừ' | 'ử' | 'ữ' | 'ự' => 'ư',
        'ý' | 'ỳ' | 'ỷ' | 'ỹ' | 'ỵ' => 'y',
        'Á' | 'À' | 'Ả' | 'Ã' | 'Ạ' => 'A',
        'Ấ' | 'Ầ' | 'Ẩ' | 'Ẫ' | 'Ậ' => 'Â',
        'Ắ' | 'Ằ' | 'Ẳ' | 'Ẵ' | 'Ặ' => 'Ă',
        'É' | 'È' | 'Ẻ' | 'Ẽ' | 'Ẹ' => 'E',
        'Ế' | 'Ề' | 'Ể' | 'Ễ' | 'Ệ' => 'Ê',
        'Í' | 'Ì' | 'Ỉ' | 'Ĩ' | 'Ị' => 'I',
        'Ó' | 'Ò' | 'Ỏ' | 'Õ' | 'Ọ' => 'O',
        'Ố' | 'Ồ' | 'Ổ' | 'Ỗ' | 'Ộ' => 'Ô',
        'Ớ' | 'Ờ' | 'Ở' | 'Ỡ' | 'Ợ' => 'Ơ',
        'Ú' | 'Ù' | 'Ủ' | 'Ũ' | 'Ụ' => 'U',
        'Ứ' | 'Ừ' | 'Ử' | 'Ữ' | 'Ự' => 'Ư',
        'Ý' | 'Ỳ' | 'Ỷ' | 'Ỹ' | 'Ỵ' => 'Y',
        _ => c,
    }
}

/// Removes a shape mark (circumflex, breve, horn, or the crossed d),
/// turning a tone-free character into its base Latin letter.
pub open spec fn strip_shape(c: char) -> char {
    match c {
        'â' | 'ă' => 'a',
        'ê' => 'e',
        'ô' | 'ơ' => 'o',
        'ư' => 'u',
        'đ' => 'd',
        'Â' | 'Ă' => 'A',
        'Ê' => 'E',
        'Ô' | 'Ơ' => 'O',
        'Ư' => 'U',
        'Đ' => 'D',
        _ => c,
    }
}

/// The fully accent-stripped form of a character: tone mark and shape mark
/// removed, case kept.  `'Ậ'` becomes `'A'`, `'đ'` becomes `'d'`.
pub open spec fn base_of(c: char) -> char {
    strip_shape(strip_tone(c))
}

/// ASCII lower-casing; every accent-stripped letter is ASCII.
pub open spec fn ascii_lower(c: char) -> char {
    match c {
        'A' => 'a', 'B' => 'b', 'C' => 'c', 'D' => 'd', 'E' => 'e', 'F' => 'f',
        'G' => 'g', 'H' => 'h', 'I' => 'i', 'J' => 'j', 'K' => 'k', 'L' => 'l',
        'M' => 'm', 'N' => 'n', 'O' => 'o', 'P' => 'p', 'Q' => 'q', 'R' => 'r',
        'S' => 's', 'T' => 't', 'U' => 'u', 'V' => 'v', 'W' => 'w', 'X' => 'x',
        'Y' => 'y', 'Z' => 'z',
        _ => c,
    }
}

/// ASCII upper-casing, used to normalize a keystroke typed with a
/// case-shifting modifier.
pub open spec fn ascii_upper(c: char) -> char {
    match c {
        'a' => 'A', 'b' => 'B', 'c' => 'C', 'd' => 'D', 'e' => 'E', 'f' => 'F',
        'g' => 'G', 'h' => 'H', 'i' => 'I', 'j' => 'J', 'k' => 'K', 'l' => 'L',
        'm' => 'M', 'n' => 'N', 'o' => 'O', 'p' => 'P', 'q' => 'Q', 'r' => 'R',
        's' => 'S', 't' => 'T', 'u' => 'U', 'v' => 'V', 'w' => 'W', 'x' => 'X',
        'y' => 'Y', 'z' => 'Z',
        _ => c,
    }
}

/// Accent-stripped and case-folded form, the shape rules are matched on it.
pub open spec fn fold(c: char) -> char {
    ascii_lower(base_of(c))
}

/// Whether a character of the supported alphabet is upper case, decided on
/// its accent-stripped form.
pub open spec fn is_upper(c: char) -> bool {
    match base_of(c) {
        'A' | 'B' | 'C' | 'D' | 'E' | 'F' | 'G' | 'H' | 'I' | 'J' | 'K' | 'L' | 'M'
        | 'N' | 'O' | 'P' | 'Q' | 'R' | 'S' | 'T' | 'U' | 'V' | 'W' | 'X' | 'Y' | 'Z' => true,
        _ => false,
    }
}

/// The tone table: the toned form of a plain or shape-marked vowel under a
/// given tone mark, or `None` for any character the tables do not cover.
pub open spec fn tone_marked(t: Tone, c: char) -> Option<char> {
    match t {
        Tone::Acute => match c {
            'a' => Some('á'), 'â' => Some('ấ'), 'ă' => Some('ắ'),
            'e' => Some('é'), 'ê' => Some('ế'), 'i' => Some('í'),
            'o' => Some('ó'), 'ô' => Some('ố'), 'ơ' => Some('ớ'),
            'u' => Some('ú'), 'ư' => Some('ứ'), 'y' => Some('ý'),
            'A' => Some('Á'), 'Â' => Some('Ấ'), 'Ă' => Some('Ắ'),
            'E' => Some('É'), 'Ê' => Some('Ế'), 'I' => Some('Í'),
            'O' => Some('Ó'), 'Ô' => Some('Ố'), 'Ơ' => Some('Ớ'),
            'U' => Some('Ú'), 'Ư' => Some('Ứ'), 'Y' => Some('Ý'),
            _ => None,
        },
        Tone::Grave => match c {
            'a' => Some('à'), 'â' => Some('ầ'), 'ă' => Some('ằ'),
            'e' => Some('è'), 'ê' => Some('ề'), 'i' => Some('ì'),
            'o' => Some('ò'), 'ô' => Some('ồ'), 'ơ' => Some('ờ'),
            'u' => Some('ù'), 'ư' => Some('ừ'), 'y' => Some('ỳ'),
            'A' => Some('À'), 'Â' => Some('Ầ'), 'Ă' => Some('Ằ'),
            'E' => Some('È'), 'Ê' => Some('Ề'), 'I' => Some('Ì'),
            'O' => Some('Ò'), 'Ô' => Some('Ồ'), 'Ơ' => Some('Ờ'),
            'U' => Some('Ù'), 'Ư' => Some('Ừ'), 'Y' => Some('Ỳ'),
            _ => None,
        },
        Tone::HookAbove => match c {
            'a' => Some('ả'), 'â' => Some('ẩ'), 'ă' => Some('ẳ'),
            'e' => Some('ẻ'), 'ê' => Some('ể'), 'i' => Some('ỉ'),
            'o' => Some('ỏ'), 'ô' => Some('ổ'), 'ơ' => Some('ở'),
            'u' => Some('ủ'), 'ư' => Some('ử'), 'y' => Some('ỷ'),
            'A' => Some('Ả'), 'Â' => Some('Ẩ'), 'Ă' => Some('Ẳ'),
            'E' => Some('Ẻ'), 'Ê' => Some('Ể'), 'I' => Some('Ỉ'),
            'O' => Some('Ỏ'), 'Ô' => Some('Ổ'), 'Ơ' => Some('Ở'),
            'U' => Some('Ủ'), 'Ư' => Some('Ử'), 'Y' => Some('Ỷ'),
            _ => None,
        },
        Tone::Tilde => match c {
            'a' => Some('ã'), 'â' => Some('ẫ'), 'ă' => Some('ẵ'),
            'e' => Some('ẽ'), 'ê' => Some('ễ'), 'i' => Some('ĩ'),
            'o' => Some('õ'), 'ô' => Some('ỗ'), 'ơ' => Some('ỡ'),
            'u' => Some('ũ'), 'ư' => Some('ữ'), 'y' => Some('ỹ'),
            'A' => Some('Ã'), 'Â' => Some('Ẫ'), 'Ă' => Some('Ẵ'),
            'E' => Some('Ẽ'), 'Ê' => Some('Ễ'), 'I' => Some('Ĩ'),
            'O' => Some('Õ'), 'Ô' => Some('Ỗ'), 'Ơ' => Some('Ỡ'),
            'U' => Some('Ũ'), 'Ư' => Some('Ữ'), 'Y' => Some('Ỹ'),
            _ => None,
        },
        Tone::Dot => match c {
            'a' => Some('ạ'), 'â' => Some('ậ'), 'ă' => Some('ặ'),
            'e' => Some('ẹ'), 'ê' => Some('ệ'), 'i' => Some('ị'),
            'o' => Some('ọ'), 'ô' => Some('ộ'), 'ơ' => Some('ợ'),
            'u' => Some('ụ'), 'ư' => Some('ự'), 'y' => Some('ỵ'),
            'A' => Some('Ạ'), 'Â' => Some('Ậ'), 'Ă' => Some('Ặ'),
            'E' => Some('Ẹ'), 'Ê' => Some('Ệ'), 'I' => Some('Ị'),
            'O' => Some('Ọ'), 'Ô' => Some('Ộ'), 'Ơ' => Some('Ợ'),
            'U' => Some('Ụ'), 'Ư' => Some('Ự'), 'Y' => Some('Ỵ'),
            _ => None,
        },
    }
}

/// Removes the tone mark of a character, keeping its shape mark.
pub fn remove_tone(c: char) -> (r: char)
    ensures
        r == strip_tone(c),
{
    match c {
        'á' | 'à' | 'ả' | 'ã' | 'ạ' => 'a',
        'ấ' | 'ầ' | 'ẩ' | 'ẫ' | 'ậ' => 'â',
        'ắ' | 'ằ' | 'ẳ' | 'ẵ' | 'ặ' => 'ă',
        'é' | 'è' | 'ẻ' | 'ẽ' | 'ẹ' => 'e',
        'ế' | 'ề' | 'ể' | 'ễ' | 'ệ' => 'ê',
        'í' | 'ì' | 'ỉ' | 'ĩ' | 'ị' => 'i',
        'ó' | 'ò' | 'ỏ' | 'õ' | 'ọ' => 'o',
        'ố' | 'ồ' | 'ổ' | 'ỗ' | 'ộ' => 'ô',
        'ớ' | 'ờ' | 'ở' | 'ỡ' | 'ợ' => 'ơ',
        'ú' | 'ù' | 'ủ' | 'ũ' | 'ụ' => 'u',
        'ứ' | 'ừ' | 'ử' | 'ữ' | 'ự' => 'ư',
        'ý' | 'ỳ' | 'ỷ' | 'ỹ' | 'ỵ' => 'y',
        'Á' | 'À' | 'Ả' | 'Ã' | 'Ạ' => 'A',
        'Ấ' | 'Ầ' | 'Ẩ' | 'Ẫ' | 'Ậ' => 'Â',
        'Ắ' | 'Ằ' | 'Ẳ' | 'Ẵ' | 'Ặ' => 'Ă',
        'É' | 'È' | 'Ẻ' | 'Ẽ' | 'Ẹ' => 'E',
        'Ế' | 'Ề' | 'Ể' | 'Ễ' | 'Ệ' => 'Ê',
        'Í' | 'Ì' | 'Ỉ' | 'Ĩ' | 'Ị' => 'I',
        'Ó' | 'Ò' | 'Ỏ' | 'Õ' | 'Ọ' => 'O',
        'Ố' | 'Ồ' | 'Ổ' | 'Ỗ' | 'Ộ' => 'Ô',
        'Ớ' | 'Ờ' | 'Ở' | 'Ỡ' | 'Ợ' => 'Ơ',
        'Ú' | 'Ù' | 'Ủ' | 'Ũ' | 'Ụ' => 'U',
        'Ứ' | 'Ừ' | 'Ử' | 'Ữ' | 'Ự' => 'Ư',
        'Ý' | 'Ỳ' | 'Ỷ' | 'Ỹ' | 'Ỵ' => 'Y',
        _ => c,
    }
}

/// The fully accent-stripped form: tone and shape marks removed, case kept.
pub fn clean_char(c: char) -> (r: char)
    ensures
        r == base_of(c),
{
    match remove_tone(c) {
        'â' | 'ă' => 'a',
        'ê' => 'e',
        'ô' | 'ơ' => 'o',
        'ư' => 'u',
        'đ' => 'd',
        'Â' | 'Ă' => 'A',
        'Ê' => 'E',
        'Ô' | 'Ơ' => 'O',
        'Ư' => 'U',
        'Đ' => 'D',
        r => r,
    }
}

/// ASCII lower-casing.
pub fn to_lower_char(c: char) -> (r: char)
    ensures
        r == ascii_lower(c),
{
    match c {
        'A' => 'a', 'B' => 'b', 'C' => 'c', 'D' => 'd', 'E' => 'e', 'F' => 'f',
        'G' => 'g', 'H' => 'h', 'I' => 'i', 'J' => 'j', 'K' => 'k', 'L' => 'l',
        'M' => 'm', 'N' => 'n', 'O' => 'o', 'P' => 'p', 'Q' => 'q', 'R' => 'r',
        'S' => 's', 'T' => 't', 'U' => 'u', 'V' => 'v', 'W' => 'w', 'X' => 'x',
        'Y' => 'y', 'Z' => 'z',
        _ => c,
    }
}

/// ASCII upper-casing.
pub fn to_upper_char(c: char) -> (r: char)
    ensures
        r == ascii_upper(c),
{
    match c {
        'a' => 'A', 'b' => 'B', 'c' => 'C', 'd' => 'D', 'e' => 'E', 'f' => 'F',
        'g' => 'G', 'h' => 'H', 'i' => 'I', 'j' => 'J', 'k' => 'K', 'l' => 'L',
        'm' => 'M', 'n' => 'N', 'o' => 'O', 'p' => 'P', 'q' => 'Q', 'r' => 'R',
        's' => 'S', 't' => 'T', 'u' => 'U', 'v' => 'V', 'w' => 'W', 'x' => 'X',
        'y' => 'Y', 'z' => 'Z',
        _ => c,
    }
}

/// Whether a character of the supported alphabet is upper case.
pub fn is_upper_char(c: char) -> (r: bool)
    ensures
        r == is_upper(c),
{
    match clean_char(c) {
        'A' | 'B' | 'C' | 'D' | 'E' | 'F' | 'G' | 'H' | 'I' | 'J' | 'K' | 'L' | 'M'
        | 'N' | 'O' | 'P' | 'Q' | 'R' | 'S' | 'T' | 'U' | 'V' | 'W' | 'X' | 'Y' | 'Z' => true,
        _ => false,
    }
}

/// Looks a character up in the tone table of `t`.
pub fn tone_char(t: Tone, c: char) -> (r: Option<char>)
    ensures
        r == tone_marked(t, c),
{
    match t {
        Tone::Acute => match c {
            'a' => Some('á'), 'â' => Some('ấ'), 'ă' => Some('ắ'),
            'e' => Some('é'), 'ê' => Some('ế'), 'i' => Some('í'),
            'o' => Some('ó'), 'ô' => Some('ố'), 'ơ' => Some('ớ'),
            'u' => Some('ú'), 'ư' => Some('ứ'), 'y' => Some('ý'),
            'A' => Some('Á'), 'Â' => Some('Ấ'), 'Ă' => Some('Ắ'),
            'E' => Some('É'), 'Ê' => Some('Ế'), 'I' => Some('Í'),
            'O' => Some('Ó'), 'Ô' => Some('Ố'), 'Ơ' => Some('Ớ'),
            'U' => Some('Ú'), 'Ư' => Some('Ứ'), 'Y' => Some('Ý'),
            _ => None,
        },
        Tone::Grave => match c {
            'a' => Some('à'), 'â' => Some('ầ'), 'ă' => Some('ằ'),
            'e' => Some('è'), 'ê' => Some('ề'), 'i' => Some('ì'),
            'o' => Some('ò'), 'ô' => Some('ồ'), 'ơ' => Some('ờ'),
            'u' => Some('ù'), 'ư' => Some('ừ'), 'y' => Some('ỳ'),
            'A' => Some('À'), 'Â' => Some('Ầ'), 'Ă' => Some('Ằ'),
            'E' => Some('È'), 'Ê' => Some('Ề'), 'I' => Some('Ì'),
            'O' => Some('Ò'), 'Ô' => Some('Ồ'), 'Ơ' => Some('Ờ'),
            'U' => Some('Ù'), 'Ư' => Some('Ừ'), 'Y' => Some('Ỳ'),
            _ => None,
        },
        Tone::HookAbove => match c {
            'a' => Some('ả'), 'â' => Some('ẩ'), 'ă' => Some('ẳ'),
            'e' => Some('ẻ'), 'ê' => Some('ể'), 'i' => Some('ỉ'),
            'o' => Some('ỏ'), 'ô' => Some('ổ'), 'ơ' => Some('ở'),
            'u' => Some('ủ'), 'ư' => Some('ử'), 'y' => Some('ỷ'),
            'A' => Some('Ả'), 'Â' => Some('Ẩ'), 'Ă' => Some('Ẳ'),
            'E' => Some('Ẻ'), 'Ê' => Some('Ể'), 'I' => Some('Ỉ'),
            'O' => Some('Ỏ'), 'Ô' => Some('Ổ'), 'Ơ' => Some('Ở'),
            'U' => Some('Ủ'), 'Ư' => Some('Ử'), 'Y' => Some('Ỷ'),
            _ => None,
        },
        Tone::Tilde => match c {
            'a' => Some('ã'), 'â' => Some('ẫ'), 'ă' => Some('ẵ'),
            'e' => Some('ẽ'), 'ê' => Some('ễ'), 'i' => Some('ĩ'),
            'o' => Some('õ'), 'ô' => Some('ỗ'), 'ơ' => Some('ỡ'),
            'u' => Some('ũ'), 'ư' => Some('ữ'), 'y' => Some('ỹ'),
            'A' => Some('Ã'), 'Â' => Some('Ẫ'), 'Ă' => Some('Ẵ'),
            'E' => Some('Ẽ'), 'Ê' => Some('Ễ'), 'I' => Some('Ĩ'),
            'O' => Some('Õ'), 'Ô' => Some('Ỗ'), 'Ơ' => Some('Ỡ'),
            'U' => Some('Ũ'), 'Ư' => Some('Ữ'), 'Y' => Some('Ỹ'),
            _ => None,
        },
        Tone::Dot => match c {
            'a' => Some('ạ'), 'â' => Some('ậ'), 'ă' => Some('ặ'),
            'e' => Some('ẹ'), 'ê' => Some('ệ'), 'i' => Some('ị'),
            'o' => Some('ọ'), 'ô' => Some('ộ'), 'ơ' => Some('ợ'),
            'u' => Some('ụ'), 'ư' => Some('ự'), 'y' => Some('ỵ'),
            'A' => Some('Ạ'), 'Â' => Some('Ậ'), 'Ă' => Some('Ặ'),
            'E' => Some('Ẹ'), 'Ê' => Some('Ệ'), 'I' => Some('Ị'),
            'O' => Some('Ọ'), 'Ô' => Some('Ộ'), 'Ơ' => Some('Ợ'),
            'U' => Some('Ụ'), 'Ư' => Some('Ự'), 'Y' => Some('Ỵ'),
            _ => None,
        },
    }
}

} // verus!
