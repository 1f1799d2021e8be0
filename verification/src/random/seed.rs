//! Seeds for the pseudo-random source.

use vstd::prelude::*;
use vstd::std_specs::convert::FromSpecImpl;

verus! {

/// `std::time::SystemTime`, carried from one call to the next and never
/// looked into.
#[verifier::external_type_specification]
#[verifier::external_body]
pub struct ExSystemTime(std::time::SystemTime);

/// `std::time::SystemTime::now`: a reading of the system clock. Nothing is
/// claimed of the reading.
#[verifier::external_body]
fn clock_reading() -> std::time::SystemTime {
    std::time::SystemTime::now()
}

/// `std::time::SystemTime::duration_since`, measured from
/// `SystemTime::UNIX_EPOCH`: the time that passed between the epoch and
/// `reading`, or `None` where the call fails because `reading` is earlier
/// than the epoch. Nothing is claimed of the length of that time.
#[verifier::external_body]
fn since_epoch(reading: std::time::SystemTime) -> Option<core::time::Duration> {
    match reading.duration_since(std::time::SystemTime::UNIX_EPOCH) {
        Ok(elapsed) => Some(elapsed),
        Err(_) => None,
    }
}

/// `core::time::Duration::as_millis`: the whole milliseconds in `elapsed`.
/// Nothing is claimed of their number.
#[verifier::external_body]
fn whole_millis(elapsed: core::time::Duration) -> u128 {
    elapsed.as_millis()
}

/// A 32-bit seed.
#[derive(Copy, Clone, Debug, PartialEq, Eq, Structural)]
pub struct Seed(pub u32);

/// The four bytes of `value`, most significant first.
pub open spec fn big_endian(value: u32) -> Seq<u8> {
    seq![
        (value / 0x100_0000) as u8,
        (value / 0x1_0000 % 0x100) as u8,
        (value / 0x100 % 0x100) as u8,
        (value % 0x100) as u8,
    ]
}

impl Seed {
    /// The seed that a clock reading of `millis` milliseconds gives: its low
    /// 32 bits.
    pub open spec fn spec_from_millis(millis: u128) -> Seed {
        Seed((millis % 0x1_0000_0000) as u32)
    }

    /// Keeps the low 32 bits of a clock reading in milliseconds.
    pub fn from_millis(millis: u128) -> (seed: Seed)
        ensures
            seed == Self::spec_from_millis(millis),
    {
        let low: u128 = millis & 0xffff_ffff;
        assert(low == millis % 0x1_0000_0000) by (bit_vector)
            requires
                low == millis & 0xffff_ffff,
        ;
        Seed(low as u32)
    }

    /// A seed taken from the system clock: the low 32 bits of the
    /// milliseconds that have passed since the Unix epoch.
    ///
    /// Returns `None` when the clock reads earlier than the epoch. Which seed
    /// comes back depends on the moment of the call, so the contract says
    /// nothing of it; [`Seed::from_millis`] states how a reading becomes a
    /// seed.
    pub fn new() -> Option<Seed> {
        match since_epoch(clock_reading()) {
            Some(elapsed) => Some(Seed::from_millis(whole_millis(elapsed))),
            None => None,
        }
    }
}

impl Default for Seed {
    fn default() -> (seed: Self)
        ensures
            seed == Seed(0),
    {
        Seed(0)
    }
}

/// The sixteen bytes that start the generator.
#[derive(Copy, Clone, Debug, PartialEq, Eq)]
pub struct SeedBuffer(pub [u8; 16]);

impl SeedBuffer {
    /// The buffer that `seed` fills: its four bytes, most significant first,
    /// four times over.
    pub open spec fn spec_from(seed: Seed) -> SeedBuffer {
        let b = big_endian(seed.0);
        SeedBuffer(
            [
                b[0],
                b[1],
                b[2],
                b[3],
                b[0],
                b[1],
                b[2],
                b[3],
                b[0],
                b[1],
                b[2],
                b[3],
                b[0],
                b[1],
                b[2],
                b[3],
            ],
        )
    }
}

impl FromSpecImpl<Seed> for SeedBuffer {
    open spec fn obeys_from_spec() -> bool {
        true
    }

    open spec fn from_spec(seed: Seed) -> SeedBuffer {
        SeedBuffer::spec_from(seed)
    }
}

impl From<Seed> for SeedBuffer {
    /// Writes the seed's bytes, most significant first, four times over.
    fn from(seed: Seed) -> (buffer: Self)
        ensures
            buffer == SeedBuffer::spec_from(seed),
            buffer.0@ == big_endian(seed.0) + big_endian(seed.0) + big_endian(seed.0) + big_endian(
                seed.0,
            ),
    {
        let value: u32 = seed.0;
        let b0: u8 = #[verifier::truncate] ((value >> 24 & 0xff) as u8);
        let b1: u8 = #[verifier::truncate] ((value >> 16 & 0xff) as u8);
        let b2: u8 = #[verifier::truncate] ((value >> 8 & 0xff) as u8);
        let b3: u8 = #[verifier::truncate] ((value & 0xff) as u8);
        assert(b0 == value / 0x100_0000 && b1 == value / 0x1_0000 % 0x100 && b2 == value / 0x100
            % 0x100 && b3 == value % 0x100) by (bit_vector)
            requires
                b0 == (value >> 24 & 0xff) as u8,
                b1 == (value >> 16 & 0xff) as u8,
                b2 == (value >> 8 & 0xff) as u8,
                b3 == (value & 0xff) as u8,
        ;
        let mut buffer: [u8; 16] = [0; 16];
        let mut i: usize = 0;
        while i < 4
            invariant
                i <= 4,
                forall|k: int| 0 <= k < 4 * i ==> buffer@[k] == big_endian(value)[k % 4],
                b0 == big_endian(value)[0],
                b1 == big_endian(value)[1],
                b2 == big_endian(value)[2],
                b3 == big_endian(value)[3],
            decreases 4 - i,
        {
            buffer[i * 4] = b0;
            buffer[i * 4 + 1] = b1;
            buffer[i * 4 + 2] = b2;
            buffer[i * 4 + 3] = b3;
            i = i + 1;
        }
        assert(buffer =~= SeedBuffer::spec_from(seed).0);
        assert(buffer@ =~= big_endian(value) + big_endian(value) + big_endian(value) + big_endian(
            value,
        ));
        Self(buffer)
    }
}

} // verus!
