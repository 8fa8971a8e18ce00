//! Modbus side of the bridge: which request reads a register, how a reply
//! becomes raw words, and how long to wait before reconnecting.

pub mod client;
pub mod poll;
pub mod reader;
pub mod store;

use crate::config::{RegisterConfig, RegisterConfigView, RegisterType};
use vstd::prelude::*;

verus! {

/// A Modbus read, by function.
#[derive(Debug, Clone, Copy, PartialEq, Eq, Structural)]
pub enum ReadRequest {
    HoldingRegisters { address: u16, count: u16 },
    InputRegisters { address: u16, count: u16 },
    Coils { address: u16, count: u16 },
    DiscreteInputs { address: u16, count: u16 },
}

/// What a device answers to a read: words for registers, bits for coils and
/// discrete inputs.
#[derive(Debug)]
pub enum ReadReply {
    Words(Vec<u16>),
    Bits(Vec<bool>),
}

/// The read that fetches a register: the function of its table, at its
/// address, for its count.
pub open spec fn request_for(register: RegisterConfigView) -> ReadRequest {
    match register.register_type {
        RegisterType::Holding => ReadRequest::HoldingRegisters {
            address: register.address,
            count: register.count,
        },
        RegisterType::Input => ReadRequest::InputRegisters {
            address: register.address,
            count: register.count,
        },
        RegisterType::Coil => ReadRequest::Coils {
            address: register.address,
            count: register.count,
        },
        RegisterType::Discrete => ReadRequest::DiscreteInputs {
            address: register.address,
            count: register.count,
        },
    }
}

/// A bit as a word: one for set, zero for clear.
pub open spec fn word_of_bit(bit: bool) -> u16 {
    if bit {
        1
    } else {
        0
    }
}

/// The raw words of a reply: the words themselves, or one word per bit.
pub open spec fn raw_words(reply: ReadReply) -> Seq<u16> {
    match reply {
        ReadReply::Words(words) => words@,
        ReadReply::Bits(bits) => bits@.map_values(|bit: bool| word_of_bit(bit)),
    }
}

/// The read that fetches a register.
pub fn read_request(register: &RegisterConfig) -> (request: ReadRequest)
    ensures
        request == request_for(register.deep_view()),
{
    match register.register_type {
        RegisterType::Holding => ReadRequest::HoldingRegisters {
            address: register.address,
            count: register.count,
        },
        RegisterType::Input => ReadRequest::InputRegisters {
            address: register.address,
            count: register.count,
        },
        RegisterType::Coil => ReadRequest::Coils {
            address: register.address,
            count: register.count,
        },
        RegisterType::Discrete => ReadRequest::DiscreteInputs {
            address: register.address,
            count: register.count,
        },
    }
}

/// Turns a reply into raw words.
pub fn into_words(reply: ReadReply) -> (words: Vec<u16>)
    ensures
        words@ == raw_words(reply),
{
    match reply {
        ReadReply::Words(words) => words,
        ReadReply::Bits(bits) => {
            let mut words: Vec<u16> = Vec::new();
            let mut i: usize = 0;
            while i < bits.len()
                invariant
                    i <= bits.len(),
                    words.len() == i,
                    forall|j: int| 0 <= j < i ==> words[j] == word_of_bit(bits[j]),
                decreases bits.len() - i,
            {
                words.push(
                    if bits[i] {
                        1
                    } else {
                        0
                    },
                );
                i += 1;
            }
            assert(words@ =~= bits@.map_values(|bit: bool| word_of_bit(bit)));
            words
        },
    }
}

/// First reconnect delay ceiling, in milliseconds.
pub const BACKOFF_INITIAL_MS: u64 = 500;

/// Largest reconnect delay ceiling, in milliseconds.
pub const BACKOFF_CAP_MS: u64 = 30_000;

/// The ceiling after one more failed attempt: doubled, up to the cap.
pub open spec fn doubled(ceiling_ms: u64) -> u64 {
    if ceiling_ms * 2 >= BACKOFF_CAP_MS {
        BACKOFF_CAP_MS
    } else {
        (ceiling_ms * 2) as u64
    }
}

/// The ceiling before the attempt number `failures` (counting from zero):
/// 500 ms doubled once per earlier failure, up to 30 s.
pub open spec fn ceiling_after(failures: nat) -> u64
    decreases failures,
{
    if failures == 0 {
        BACKOFF_INITIAL_MS
    } else {
        doubled(ceiling_after((failures - 1) as nat))
    }
}

/// Reconnect delays with exponential backoff and full jitter.
#[derive(Debug)]
pub struct Backoff {
    ceiling_ms: u64,
}

impl Backoff {
    #[verifier::type_invariant]
    spec fn bounded(self) -> bool {
        BACKOFF_INITIAL_MS <= self.ceiling_ms <= BACKOFF_CAP_MS
    }

    /// The largest delay the next attempt may wait, in milliseconds.
    pub closed spec fn ceiling(self) -> u64 {
        self.ceiling_ms
    }

    /// The backoff before any failure.
    pub fn new() -> (backoff: Self)
        ensures
            backoff.ceiling() == BACKOFF_INITIAL_MS,
    {
        Backoff { ceiling_ms: BACKOFF_INITIAL_MS }
    }

    /// The largest delay the next attempt may wait, in milliseconds.
    pub fn ceiling_ms(&self) -> (ceiling: u64)
        ensures
            ceiling == self.ceiling(),
            BACKOFF_INITIAL_MS <= ceiling <= BACKOFF_CAP_MS,
    {
        proof {
            use_type_invariant(self);
        }
        self.ceiling_ms
    }

    /// The delay before the next attempt after a failure, in milliseconds:
    /// `sample` (a uniformly random number) reduced into `0..=ceiling`. The
    /// ceiling then doubles, up to the cap.
    pub fn next_delay(&mut self, sample: u64) -> (delay_ms: u64)
        ensures
            delay_ms == sample % ((old(self).ceiling() + 1) as u64),
            delay_ms <= old(self).ceiling(),
            final(self).ceiling() == doubled(old(self).ceiling()),
        no_unwind
    {
        proof {
            use_type_invariant(&*self);
        }
        let ceiling = self.ceiling_ms;
        let delay = sample % (ceiling + 1);
        self.ceiling_ms = if ceiling * 2 >= BACKOFF_CAP_MS {
            BACKOFF_CAP_MS
        } else {
            ceiling * 2
        };
        delay
    }

    /// Back to the initial ceiling, after a successful attempt.
    pub fn reset(&mut self)
        ensures
            final(self).ceiling() == BACKOFF_INITIAL_MS,
        no_unwind
    {
        self.ceiling_ms = BACKOFF_INITIAL_MS;
    }
}

/// The ceiling never leaves the range from 500 ms to 30 s, never shrinks
/// with more failures, and is 30 s from the sixth failure on.
pub proof fn lemma_ceiling_bounds(failures: nat)
    ensures
        BACKOFF_INITIAL_MS <= ceiling_after(failures) <= BACKOFF_CAP_MS,
        ceiling_after(failures) <= ceiling_after(failures + 1),
        failures >= 6 ==> ceiling_after(failures) == BACKOFF_CAP_MS,
    decreases failures,
{
    reveal_with_fuel(ceiling_after, 8);
    if failures > 6 {
        lemma_ceiling_bounds((failures - 1) as nat);
    } else if failures > 0 {
        lemma_ceiling_bounds((failures - 1) as nat);
    }
}

} // verus!
