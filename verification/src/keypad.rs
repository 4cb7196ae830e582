use vstd::prelude::*;

verus! {

/// The keyboard letters that stand for the sixteen keys of the machine:
/// the letter at place `k` presses key `k`.
pub const KEY_LETTERS: [char; 16] = [
    'q', 'w', 'e', 'r',
    'a', 's', 'd', 'f',
    'z', 'x', 'c', 'v',
    'u', 'i', 'o', 'p',
];

/// The key that a keyboard letter stands for, if it stands for one.
pub fn key_for_letter(letter: char) -> (key: Option<u8>)
    ensures
        match key {
            Some(k) => k < 16 && KEY_LETTERS@[k as int] == letter,
            None => forall|k: int| 0 <= k < 16 ==> KEY_LETTERS@[k] != letter,
        },
{
    let mut k: u8 = 0;
    while k < 16
        invariant
            k <= 16,
            forall|j: int| 0 <= j < k ==> KEY_LETTERS@[j] != letter,
        decreases 16 - k,
    {
        if KEY_LETTERS[k as usize] == letter {
            return Some(k);
        }
        k += 1;
    }
    None
}

} // verus!
