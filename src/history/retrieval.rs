use vstd::prelude::*;

use crate::error::SensorError;
use crate::history::pull::{is_fresh, packet_taken, read_failure_taken, ChannelPull, PullStatus};
use crate::history::readings::{
    built_from, channel_error, history_error, information_at, request_bytes, HistoryReadings,
    HistoryRequest,
};
use crate::protocol::LogParameter;

verus! {

/// What the caller should do next to retrieve the history log.
#[derive(Debug, Clone, PartialEq, Eq)]
pub enum HistoryStep {
    /// Write these bytes to the command characteristic, then report it with
    /// [`HistoryRetrieval::on_request_sent`].
    Request(Vec<u8>),
    /// Read one packet from the history characteristic and hand it over.
    Read,
    /// Nothing more to exchange: call [`HistoryRetrieval::finish`].
    Done,
}

/// Retrieval of the whole history log: the four channels are pulled one
/// after another, temperature, humidity, CO2, then pressure, each opened with
/// its own request. A channel that breaks the protocol or whose read fails
/// stops the retrieval, as does a temperature channel that ends without a
/// page holding samples.
pub struct HistoryRetrieval {
    pub temperature: ChannelPull,
    pub humidity: ChannelPull,
    pub co2: ChannelPull,
    pub pressure: ChannelPull,
    /// Whether the request of the current channel has been written.
    pub requested: bool,
}

impl HistoryRetrieval {
    /// The channel pulled at position `k` of the order.
    pub open spec fn channel_at(self, k: int) -> ChannelPull {
        if k == 0 {
            self.temperature
        } else if k == 1 {
            self.humidity
        } else if k == 2 {
            self.co2
        } else {
            self.pressure
        }
    }

    /// Whether the retrieval cannot give a log any more: a channel failed,
    /// or the temperature channel stopped without a header.
    pub open spec fn stopped_early(self) -> bool {
        ||| channel_error(self.temperature) is Some
        ||| channel_error(self.humidity) is Some
        ||| channel_error(self.co2) is Some
        ||| channel_error(self.pressure) is Some
        ||| (self.temperature.status != PullStatus::Pulling && self.temperature.first_header is None)
    }

    /// Position of the channel being pulled: the first still pulling, unless
    /// the retrieval stopped early or all channels have stopped.
    pub open spec fn current(self) -> Option<int> {
        if self.stopped_early() {
            None
        } else if self.temperature.status == PullStatus::Pulling {
            Some(0)
        } else if self.humidity.status == PullStatus::Pulling {
            Some(1)
        } else if self.co2.status == PullStatus::Pulling {
            Some(2)
        } else if self.pressure.status == PullStatus::Pulling {
            Some(3)
        } else {
            None
        }
    }

    /// Whether `after` differs from `before` at most in channel `k` and the
    /// request flag.
    pub open spec fn others_kept(before: Self, after: Self, k: int) -> bool {
        forall|j: int| 0 <= j < 4 && j != k ==> #[trigger] after.channel_at(j) == before.channel_at(j)
    }

    /// A retrieval that has exchanged nothing yet.
    pub fn new() -> (r: HistoryRetrieval)
        ensures
            is_fresh(r.temperature, LogParameter::Temperature),
            is_fresh(r.humidity, LogParameter::Humidity),
            is_fresh(r.co2, LogParameter::Co2),
            is_fresh(r.pressure, LogParameter::Pressure),
            !r.requested,
    {
        HistoryRetrieval {
            temperature: ChannelPull::new(LogParameter::Temperature),
            humidity: ChannelPull::new(LogParameter::Humidity),
            co2: ChannelPull::new(LogParameter::Co2),
            pressure: ChannelPull::new(LogParameter::Pressure),
            requested: false,
        }
    }

    fn current_index(&self) -> (r: Option<usize>)
        ensures
            r matches Some(k) ==> self.current() == Some(k as int) && k < 4,
            r is None ==> self.current() is None,
    {
        if Self::failed(&self.temperature) || Self::failed(&self.humidity) || Self::failed(
            &self.co2,
        ) || Self::failed(&self.pressure) || (!self.temperature.is_pulling()
            && self.temperature.first_header.is_none()) {
            None
        } else if self.temperature.is_pulling() {
            Some(0)
        } else if self.humidity.is_pulling() {
            Some(1)
        } else if self.co2.is_pulling() {
            Some(2)
        } else if self.pressure.is_pulling() {
            Some(3)
        } else {
            None
        }
    }

    fn failed(c: &ChannelPull) -> (r: bool)
        ensures
            r == (channel_error(*c) is Some),
    {
        c.status == PullStatus::Failed || c.status == PullStatus::ReadFailed
    }

    fn channel(&self, k: usize) -> (r: &ChannelPull)
        requires
            k < 4,
        ensures
            *r == self.channel_at(k as int),
    {
        if k == 0 {
            &self.temperature
        } else if k == 1 {
            &self.humidity
        } else if k == 2 {
            &self.co2
        } else {
            &self.pressure
        }
    }

    /// The next exchange: the current channel's request until it has been
    /// written, then reads until the channel stops; done once every channel
    /// has stopped, or early (see [`Self::stopped_early`]).
    pub fn next_step(&self) -> (r: HistoryStep)
        ensures
            self.current() is None ==> r == HistoryStep::Done,
            self.stopped_early() ==> r == HistoryStep::Done,
            self.current() matches Some(k) ==> if self.requested {
                r == HistoryStep::Read
            } else {
                r matches HistoryStep::Request(b) && b@ == request_bytes(
                    HistoryRequest { parameter: self.channel_at(k).parameter, first_index: 1 },
                )
            },
    {
        match self.current_index() {
            None => HistoryStep::Done,
            Some(k) => if self.requested {
                HistoryStep::Read
            } else {
                HistoryStep::Request(self.channel(k).request())
            },
        }
    }

    /// Records that the current channel's request was written.
    pub fn on_request_sent(&mut self)
        ensures
            final(self).requested == (old(self).requested || old(self).current() is Some),
            final(self).temperature == old(self).temperature,
            final(self).humidity == old(self).humidity,
            final(self).co2 == old(self).co2,
            final(self).pressure == old(self).pressure,
    {
        if self.current_index().is_some() {
            self.requested = true;
        }
    }

    /// Hands a packet read from the history characteristic to the current
    /// channel. Ignored unless a channel is current and its request was
    /// written.
    pub fn on_packet(&mut self, packet: &[u8])
        ensures
            old(self).current() matches Some(k) ==> (old(self).requested ==> {
                &&& packet_taken(old(self).channel_at(k), final(self).channel_at(k), packet@)
                &&& Self::others_kept(*old(self), *final(self), k)
                &&& final(self).requested == (final(self).channel_at(k).status
                    == PullStatus::Pulling)
            }),
            !(old(self).current() is Some && old(self).requested) ==> *final(self) == *old(self),
    {
        if !self.requested {
            return;
        }
        match self.current_index() {
            None => {},
            Some(k) => {
                if k == 0 {
                    self.temperature.on_packet(packet);
                } else if k == 1 {
                    self.humidity.on_packet(packet);
                } else if k == 2 {
                    self.co2.on_packet(packet);
                } else {
                    self.pressure.on_packet(packet);
                }
                self.requested = self.channel(k).is_pulling();
            },
        }
    }

    /// A failed read stops the current channel with a transport failure,
    /// which ends the retrieval. Ignored unless a channel is current and its
    /// request was written.
    pub fn on_read_failed(&mut self)
        ensures
            old(self).current() matches Some(k) ==> (old(self).requested ==> {
                &&& read_failure_taken(old(self).channel_at(k), final(self).channel_at(k))
                &&& Self::others_kept(*old(self), *final(self), k)
                &&& !final(self).requested
                &&& final(self).current() is None
            }),
            !(old(self).current() is Some && old(self).requested) ==> *final(self) == *old(self),
    {
        if !self.requested {
            return;
        }
        match self.current_index() {
            None => {},
            Some(k) => {
                if k == 0 {
                    self.temperature.on_read_failed();
                } else if k == 1 {
                    self.humidity.on_read_failed();
                } else if k == 2 {
                    self.co2.on_read_failed();
                } else {
                    self.pressure.on_read_failed();
                }
                self.requested = false;
            },
        }
    }

    /// The assembled log once every channel pull has ended, the log having
    /// been read at `now` (Unix seconds); the error of [`history_error`]
    /// where there is one: a protocol error for a broken channel or a
    /// temperature channel without a header, a transport error for a failed
    /// read.
    pub fn finish_at(&self, now: i64) -> (r: Result<HistoryReadings, SensorError>)
        requires
            self.current() is None,
        ensures
            r is Ok <==> history_error(self.temperature, self.humidity, self.co2, self.pressure)
                is None,
            r matches Err(e) ==> history_error(
                self.temperature,
                self.humidity,
                self.co2,
                self.pressure,
            ) == Some(e),
            r matches Ok(h) ==> {
                &&& h.information == information_at(self.temperature.first_header.unwrap(), now)
                &&& built_from(h, self.temperature, self.humidity, self.co2, self.pressure)
            },
    {
        HistoryReadings::from_channels_at(
            &self.temperature,
            &self.humidity,
            &self.co2,
            &self.pressure,
            now,
        )
    }
}

} // verus!
