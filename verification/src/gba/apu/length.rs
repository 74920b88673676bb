use vstd::prelude::*;

verus! {

pub const WAVE_MAX_LENGTH: u16 = 256;

pub const DEFAULT_MAX_LENGTH: u16 = 64;

/// A sound channel's length counter: it counts down from the length it is
/// loaded with and the channel stops when it reaches zero.
#[derive(Debug)]
pub struct Length {
    initial_time: u8,
    time: u16,
    max_length: u16,
}

impl Length {
    pub closed spec fn spec_initial_time(&self) -> u8 {
        self.initial_time
    }

    pub closed spec fn spec_time(&self) -> u16 {
        self.time
    }

    pub closed spec fn spec_max_length(&self) -> u16 {
        self.max_length
    }

    /// The length loaded from the register: all 8 bits for the wave channel,
    /// the low 6 bits otherwise.
    pub open spec fn spec_initial_length(&self) -> u16 {
        if self.spec_max_length() == WAVE_MAX_LENGTH {
            self.spec_initial_time() as u16
        } else {
            (self.spec_initial_time() & 0x3F) as u16
        }
    }

    pub fn new(max_length: u16) -> (r: Self)
        ensures
            r.spec_initial_time() == 0,
            r.spec_time() == 0,
            r.spec_max_length() == max_length,
    {
        Length { initial_time: 0, time: 0, max_length }
    }

    pub fn initial_time(&self) -> (r: u8)
        ensures
            r == self.spec_initial_time(),
    {
        self.initial_time
    }

    pub fn time(&self) -> (r: u16)
        ensures
            r == self.spec_time(),
    {
        self.time
    }

    pub fn set_initial_time(&mut self, value: u8)
        ensures
            final(self).spec_initial_time() == value,
            final(self).spec_time() == old(self).spec_time(),
            final(self).spec_max_length() == old(self).spec_max_length(),
    {
        self.initial_time = value;
    }

    pub fn set_time(&mut self, value: u16)
        ensures
            final(self).spec_time() == value,
            final(self).spec_initial_time() == old(self).spec_initial_time(),
            final(self).spec_max_length() == old(self).spec_max_length(),
    {
        self.time = value;
    }

    pub fn reset(&mut self)
        ensures
            final(self).spec_initial_time() == 0,
            final(self).spec_time() == old(self).spec_time(),
            final(self).spec_max_length() == old(self).spec_max_length(),
    {
        self.initial_time = 0
    }

    /// One length clock: counts down, stopping at zero.
    pub fn cycle(&mut self)
        ensures
            final(self).spec_time() == (if old(self).spec_time() > 0 {
                old(self).spec_time() - 1
            } else {
                0
            }),
            final(self).spec_initial_time() == old(self).spec_initial_time(),
            final(self).spec_max_length() == old(self).spec_max_length(),
    {
        if self.time > 0 {
            self.time -= 1;
        }
    }

    /// Loads the counter from the register: it runs for the maximum length
    /// less the loaded length.
    pub fn initialize(&mut self)
        requires
            old(self).spec_initial_length() <= old(self).spec_max_length(),
        ensures
            final(self).spec_time() == old(self).spec_max_length() - old(self).spec_initial_length(),
            final(self).spec_initial_time() == old(self).spec_initial_time(),
            final(self).spec_max_length() == old(self).spec_max_length(),
    {
        let initial_length: u16 = if self.max_length == WAVE_MAX_LENGTH {
            self.initial_time as u16
        } else {
            (self.initial_time & 0x3F) as u16
        };
        self.time = self.max_length - initial_length;
    }

    /// On a trigger an expired counter starts again at the maximum length.
    pub fn reload(&mut self)
        ensures
            final(self).spec_time() == (if old(self).spec_time() == 0 {
                old(self).spec_max_length()
            } else {
                old(self).spec_time()
            }),
            final(self).spec_initial_time() == old(self).spec_initial_time(),
            final(self).spec_max_length() == old(self).spec_max_length(),
    {
        if self.time == 0 {
            self.time = self.max_length;
        }
    }

    pub fn expired(&self) -> (r: bool)
        ensures
            r == (self.spec_time() == 0),
    {
        self.time == 0
    }

    pub fn maxxed(&self) -> (r: bool)
        ensures
            r == (self.spec_time() == self.spec_max_length()),
    {
        self.time == self.max_length
    }
}

} // verus!
