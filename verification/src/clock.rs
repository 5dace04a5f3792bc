//! The client's estimate of the server clock: a signed offset from the
//! local system clock, in microseconds.

use vstd::prelude::*;

verus! {

#[verifier::external_type_specification]
#[verifier::external_body]
pub struct ExSystemTimeError(std::time::SystemTimeError);

/// Calls `std::time::SystemTime::elapsed` on `UNIX_EPOCH`: the time that has
/// passed since the epoch by the system clock, or an error when the clock
/// reads earlier than the epoch. What comes back depends on the moment of
/// the call, so nothing is stated of it.
#[verifier::external_body]
fn unix_epoch_elapsed() -> (r: Result<std::time::Duration, std::time::SystemTimeError>) {
    std::time::UNIX_EPOCH.elapsed()
}

/// Calls `std::time::Duration::as_micros`: the whole microseconds in a
/// duration. A duration is opaque here, so nothing is stated of the result.
#[verifier::external_body]
fn duration_as_micros(d: &std::time::Duration) -> (r: u128) {
    d.as_micros()
}

/// The low 64 bits of a microsecond count, read as a signed number.
pub fn micros_as_i64(micros: u128) -> (r: i64)
    ensures
        r == micros as i64,
{
    #[verifier::truncate]
    (micros as i64)
}

/// The local clock in microseconds since the Unix epoch (the low 64 bits of
/// the count), or `None` when the system clock reads earlier than the epoch.
/// What the clock reads is not stated, so the contract states nothing.
pub fn client_time_micros() -> (r: Option<i64>) {
    match unix_epoch_elapsed() {
        Ok(elapsed) => Some(micros_as_i64(duration_as_micros(&elapsed))),
        Err(_) => None,
    }
}

pub open spec fn fits_i64(x: int) -> bool {
    i64::MIN <= x <= i64::MAX
}

/// The server time that corresponds to a local time, given the offset.
pub fn server_time_at(client_time_micros: i64, server_offset_micros: i64) -> (r: i64)
    requires
        fits_i64(client_time_micros + server_offset_micros),
    ensures
        r == client_time_micros + server_offset_micros,
{
    client_time_micros + server_offset_micros
}

/// The offset that makes a local time correspond to a server time.
pub fn offset_between(server_time_micros: i64, client_time_micros: i64) -> (r: i64)
    requires
        fits_i64(server_time_micros - client_time_micros),
    ensures
        r == server_time_micros - client_time_micros,
{
    server_time_micros - client_time_micros
}

/// The server time for a reading of the local clock: the reading plus the
/// offset, or `None` when there is no reading (the clock is earlier than the
/// epoch) or the sum does not fit in 64 bits.
pub open spec fn spec_server_time_from_reading(reading: Option<i64>, server_offset_micros: i64) -> Option<i64> {
    match reading {
        Some(c) => if fits_i64(c + server_offset_micros) {
            Some((c + server_offset_micros) as i64)
        } else {
            None
        },
        None => None,
    }
}

/// The server time that a given reading of the local clock stands for.
pub fn server_time_from_reading(reading: Option<i64>, server_offset_micros: i64) -> (r: Option<i64>)
    ensures
        r == spec_server_time_from_reading(reading, server_offset_micros),
{
    match reading {
        Some(client_time) => {
            if client_time.checked_add(server_offset_micros).is_some() {
                Some(server_time_at(client_time, server_offset_micros))
            } else {
                None
            }
        },
        None => None,
    }
}

/// Current server time estimate: the local clock plus the offset. `None`
/// when the local clock reads earlier than the epoch or the sum does not
/// fit in 64 bits. The local clock is read here and what it reads is not
/// stated, so the contract only says that the result minus the offset is a
/// 64-bit clock reading; `server_time_from_reading` states the rest.
pub fn get_server_time(server_offset_micros: i64) -> (r: Option<i64>)
    ensures
        r matches Some(t) ==> fits_i64(t - server_offset_micros),
{
    server_time_from_reading(client_time_micros(), server_offset_micros)
}

/// Clock synchronisation with the server: `server time - client time`.
#[derive(Clone, Copy, Debug)]
pub struct ClockSync {
    server_offset_micros: i64,
}

impl View for ClockSync {
    type V = int;

    closed spec fn view(&self) -> int {
        self.server_offset_micros as int
    }
}

impl ClockSync {
    /// A clock that assumes the server agrees with the local clock.
    pub fn new() -> (r: ClockSync)
        ensures
            r@ == 0,
    {
        ClockSync { server_offset_micros: 0 }
    }

    pub fn offset_micros(&self) -> (r: i64)
        ensures
            r == self@,
    {
        self.server_offset_micros
    }

    /// Adopts the offset that makes `client_time_micros` read as
    /// `server_time_micros`.
    pub fn update_at(&mut self, server_time_micros: i64, client_time_micros: i64)
        requires
            fits_i64(server_time_micros - client_time_micros),
        ensures
            final(self)@ == server_time_micros - client_time_micros,
    {
        self.server_offset_micros = offset_between(server_time_micros, client_time_micros);
    }

    /// Adopts the offset between a server timestamp and a reading of the
    /// local clock; with no reading, or a difference that does not fit in 64
    /// bits, the offset stays as it was.
    pub fn update_from_reading(&mut self, server_time_micros: i64, reading: Option<i64>)
        ensures
            final(self)@ == (match reading {
                Some(c) => if fits_i64(server_time_micros - c) {
                    server_time_micros - c
                } else {
                    old(self)@
                },
                None => old(self)@,
            }),
    {
        match reading {
            Some(client_time) => {
                if server_time_micros.checked_sub(client_time).is_some() {
                    self.update_at(server_time_micros, client_time);
                }
            },
            None => {},
        }
    }

    /// Adopts the offset between a server timestamp and the local clock now.
    /// When the local clock cannot be read or the difference does not fit in
    /// 64 bits the offset stays as it was. What the clock reads is not
    /// stated, so the contract only says that the offset is either unchanged
    /// or a 64-bit difference from the server timestamp;
    /// `update_from_reading` states the rest.
    pub fn update_from_server(&mut self, server_time_micros: i64)
        ensures
            final(self)@ == old(self)@ || fits_i64(server_time_micros - final(self)@),
    {
        self.update_from_reading(server_time_micros, client_time_micros());
    }

    /// The server time that corresponds to a given local time.
    pub fn server_time_at(&self, client_time_micros: i64) -> (r: i64)
        requires
            fits_i64(client_time_micros + self@),
        ensures
            r == client_time_micros + self@,
    {
        server_time_at(client_time_micros, self.server_offset_micros)
    }

    /// Current server time estimate, as `get_server_time` gives it for this
    /// offset; what the local clock reads is not stated.
    pub fn get_server_time(&self) -> (r: Option<i64>)
        ensures
            r matches Some(t) ==> fits_i64(t - self@),
    {
        get_server_time(self.server_offset_micros)
    }
}

/// Synchronising against a server timestamp at some clock reading and then
/// asking for the server time at that same reading gives the timestamp back.
pub proof fn lemma_sync_round_trip(server_time_micros: i64, reading: i64)
    requires
        fits_i64(server_time_micros - reading),
    ensures
        spec_server_time_from_reading(Some(reading), (server_time_micros - reading) as i64) == Some(server_time_micros),
{
}

} // verus!
