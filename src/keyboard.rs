use vstd::prelude::*;

verus! {

/// Number of logical keys.
pub const NUM_KEYS: u8 = 16;

/// The keyboard port of the machine.
pub trait Chip8Keyboard: Sized {
    fn new() -> Self;

    /// Waits at most `max_duration_microseconds` for input, updating which
    /// keys are held and recording the key newly pressed meanwhile. This is
    /// the point where the machine idles between cycles.
    fn update_keystates(&mut self, max_duration_microseconds: u64) -> std::io::Result<()>;

    /// Whether logical key `key` is held.
    fn is_key_down(&self, key: u8) -> bool;

    /// The key newly pressed during the last update, if any.
    fn last_key_pressed(&self) -> Option<u8>;
}

/// What happened to a key.
#[derive(Clone, Copy, Debug, PartialEq, Eq, Structural)]
pub enum KeyAction {
    Press,
    Release,
    Repeat,
}

/// Which of the sixteen logical keys are held, one bit each, and the key that
/// was newly pressed during the current poll.
pub struct KeyState {
    key_states: u16,
    last_key_pressed: Option<u8>,
}

/// Whether bit `k` of `bits` is set.
pub open spec fn bit_set(bits: u16, k: u8) -> bool {
    (bits >> (k as u16)) & 1u16 == 1u16
}

proof fn lemma_bit_insert(bits: u16, k: u16, j: u16)
    requires
        k < 16,
        j < 16,
    ensures
        ((bits | (1u16 << k)) >> j) & 1u16 == 1u16 <==> (j == k || (bits >> j) & 1u16 == 1u16),
{
    assert(((bits | (1u16 << k)) >> j) & 1u16 == 1u16 <==> (j == k || (bits >> j) & 1u16 == 1u16))
        by (bit_vector)
        requires
            k < 16,
            j < 16,
    ;
}

proof fn lemma_bit_remove(bits: u16, k: u16, j: u16)
    requires
        k < 16,
        j < 16,
    ensures
        ((bits & !(1u16 << k)) >> j) & 1u16 == 1u16 <==> (j != k && (bits >> j) & 1u16 == 1u16),
{
    assert(((bits & !(1u16 << k)) >> j) & 1u16 == 1u16 <==> (j != k && (bits >> j) & 1u16
        == 1u16)) by (bit_vector)
        requires
            k < 16,
            j < 16,
    ;
}

proof fn lemma_bit_test(bits: u16, k: u16)
    requires
        k < 16,
    ensures
        (bits & (1u16 << k) != 0) == ((bits >> k) & 1u16 == 1u16),
{
    assert((bits & (1u16 << k) != 0) == ((bits >> k) & 1u16 == 1u16)) by (bit_vector)
        requires
            k < 16,
    ;
}

impl KeyState {
    /// The keys that are held.
    pub closed spec fn held(&self) -> Set<u8> {
        Set::new(|k: u8| k < NUM_KEYS && bit_set(self.key_states, k))
    }

    /// The key newly pressed during the current poll, if any.
    pub closed spec fn last(&self) -> Option<u8> {
        self.last_key_pressed
    }

    /// Only the sixteen logical keys can be held.
    pub proof fn lemma_held_are_keys(&self)
        ensures
            forall|k: u8| #[trigger] self.held().contains(k) ==> k < NUM_KEYS,
    {
    }

    /// No key held and none pressed.
    pub fn new() -> (r: Self)
        ensures
            r.held() == Set::<u8>::empty(),
            r.last() is None,
    {
        let r = KeyState { key_states: 0, last_key_pressed: None };
        assert forall|k: u8| k < NUM_KEYS implies !bit_set(0u16, k) by {
            assert((0u16 >> (k as u16)) & 1u16 == 0u16) by (bit_vector);
        }
        assert(r.held() =~= Set::<u8>::empty());
        r
    }

    /// Starts a poll: no key has been newly pressed yet.
    pub fn begin_poll(&mut self)
        ensures
            final(self).held() == old(self).held(),
            final(self).last() is None,
    {
        self.last_key_pressed = None;
    }

    /// Records that `key` was pressed, released or repeated. A press of a key
    /// that was not held makes it the newly pressed key.
    pub fn handle_key(&mut self, key: u8, action: KeyAction)
        requires
            key < NUM_KEYS,
        ensures
            final(self).held() == match action {
                KeyAction::Press => old(self).held().insert(key),
                KeyAction::Release => old(self).held().remove(key),
                KeyAction::Repeat => old(self).held(),
            },
            final(self).last() == if action == KeyAction::Press && !old(self).held().contains(key) {
                Some(key)
            } else {
                old(self).last()
            },
    {
        let ghost before = self.key_states;
        let bit: u16 = 1u16 << (key as u16);
        match action {
            KeyAction::Press => {
                proof {
                    lemma_bit_test(before, key as u16);
                }
                if self.key_states & bit == 0 {
                    self.last_key_pressed = Some(key);
                }
                self.key_states = self.key_states | bit;
                proof {
                    assert forall|j: u8| #[trigger] self.held().contains(j) == old(
                        self,
                    ).held().insert(key).contains(j) by {
                        if j < NUM_KEYS {
                            lemma_bit_insert(before, key as u16, j as u16);
                        }
                    }
                    assert(self.held() =~= old(self).held().insert(key));
                }
            },
            KeyAction::Release => {
                self.key_states = self.key_states & !bit;
                proof {
                    assert forall|j: u8| j < NUM_KEYS implies bit_set(self.key_states, j) == (j
                        != key && bit_set(before, j)) by {
                        lemma_bit_remove(before, key as u16, j as u16);
                    }
                    assert(self.held() =~= old(self).held().remove(key));
                }
            },
            KeyAction::Repeat => {},
        }
    }

    /// Whether `key` is held; never for a byte that names no key.
    pub fn is_key_down(&self, key: u8) -> (r: bool)
        ensures
            r == self.held().contains(key),
            key >= NUM_KEYS ==> !r,
    {
        if key >= NUM_KEYS {
            return false;
        }
        proof {
            lemma_bit_test(self.key_states, key as u16);
        }
        self.key_states & (1u16 << (key as u16)) != 0
    }

    /// The key newly pressed during the current poll, if any.
    pub fn last_key_pressed(&self) -> (r: Option<u8>)
        ensures
            r == self.last(),
    {
        self.last_key_pressed
    }
}

/// The logical key that a character of the host keyboard stands for: the
/// 4 x 4 block `1234 / qwer / asdf / zxcv`.
pub open spec fn keymap_spec(c: char) -> Option<u8> {
    match c {
        '1' => Some(0x1u8),
        '2' => Some(0x2u8),
        '3' => Some(0x3u8),
        '4' => Some(0xCu8),
        'q' => Some(0x4u8),
        'w' => Some(0x5u8),
        'e' => Some(0x6u8),
        'r' => Some(0xDu8),
        'a' => Some(0x7u8),
        's' => Some(0x8u8),
        'd' => Some(0x9u8),
        'f' => Some(0xEu8),
        'z' => Some(0xAu8),
        'x' => Some(0x0u8),
        'c' => Some(0xBu8),
        'v' => Some(0xFu8),
        _ => None,
    }
}

/// Maps a character of the host keyboard to a logical key.
pub fn keymap(c: char) -> (r: Option<u8>)
    ensures
        r == keymap_spec(c),
        r matches Some(k) ==> k < NUM_KEYS,
{
    match c {
        '1' => Some(0x1),
        '2' => Some(0x2),
        '3' => Some(0x3),
        '4' => Some(0xC),
        'q' => Some(0x4),
        'w' => Some(0x5),
        'e' => Some(0x6),
        'r' => Some(0xD),
        'a' => Some(0x7),
        's' => Some(0x8),
        'd' => Some(0x9),
        'f' => Some(0xE),
        'z' => Some(0xA),
        'x' => Some(0x0),
        'c' => Some(0xB),
        'v' => Some(0xF),
        _ => None,
    }
}

} // verus!
