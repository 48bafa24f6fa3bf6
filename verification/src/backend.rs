//! The playback backend: a `rodio` sink, and a record of what was asked of it.
//!
//! The sink is opaque to the verifier. What the engine asks of it is therefore
//! recorded, call by call, in a ghost history that the engine's contracts
//! speak of. Every call to the sink goes through a method of [`Backend`], and
//! each method records exactly the call it makes. A backend keeps the sink
//! that it was made with for as long as it lives.
use rodio::source::SeekError;
use rodio::Decoder;
use rodio::Sink;
use rodio::Source;
use std::io::Cursor;
use std::time::Duration;
use vstd::prelude::*;

verus! {

/// `rodio::Sink`, the handle that controls what an output plays, as an opaque
/// value.
#[verifier::external_type_specification]
#[verifier::external_body]
pub struct ExSink(Sink);

/// `rodio::source::SeekError`, the reason why a seek was refused.
#[verifier::external_type_specification]
#[verifier::external_body]
pub struct ExSeekError(SeekError);

/// A decoded audio stream, ready to be appended to the sink. It holds a
/// `rodio::Decoder` over the bytes of one file, kept in memory.
///
/// `rodio::Decoder` is generic over a reader bounded by `std::io::Read` and
/// `std::io::Seek`, which the verifier does not know, so the decoder is kept
/// behind this struct, into which the verifier does not look.
///
/// No function of this crate makes a track. Decoding can panic on a damaged
/// file, so it is for the caller to decode where a panic can be caught, and to
/// put the decoder into the field.
#[verifier::external_body]
pub struct Track {
    pub source: Decoder<Cursor<Vec<u8>>>,
}

/// The sample rate that the track's decoder reports, in hertz.
pub uninterp spec fn sample_rate_of(track: Track) -> u32;

/// The number of channels that the track's decoder reports.
pub uninterp spec fn channels_of(track: Track) -> u16;

/// `Source::sample_rate` of the track's decoder: the rate of the samples that
/// come next. The contract claims only that it depends on the track alone,
/// and gives it a name.
#[verifier::external_body]
fn track_sample_rate(track: &Track) -> (rate: u32)
    ensures
        rate == sample_rate_of(*track),
{
    track.source.sample_rate()
}

/// `Source::channels` of the track's decoder: the channels of the samples
/// that come next. The contract claims only that it depends on the track
/// alone, and gives it a name.
#[verifier::external_body]
fn track_channels(track: &Track) -> (channels: u16)
    ensures
        channels == channels_of(*track),
{
    track.source.channels()
}

/// The longest time, in milliseconds, that the sink lets pass before it looks
/// at its controls again while a track plays.
pub const CONTROL_PERIOD_MS: u32 = 5;

/// The highest sample rate that the sink sees as it is. The sink reads a
/// track's rate through its speed control, which turns the rate into a 32-bit
/// float and back; above 2^24 not every rate comes back as it went in.
pub const MAX_EXACT_RATE: u32 = 16_777_216;

/// Whether a sink can take a track of this sample rate and these channels.
///
/// The sink must see the rate as it is, so the rate may not be above
/// [`MAX_EXACT_RATE`]. When a track is appended the sink then counts, in 32
/// bits, the samples that make one control period: the period times the rate,
/// a thousandth of that, times the channels. A track for which a step of that
/// count does not fit is refused.
pub open spec fn fits_sink(rate: u32, channels: u16) -> bool {
    &&& rate <= MAX_EXACT_RATE
    &&& CONTROL_PERIOD_MS * rate <= u32::MAX
    &&& (CONTROL_PERIOD_MS * rate / 1000) * channels <= u32::MAX
}

impl Track {
    /// Whether a sink can take this track.
    pub open spec fn fits(&self) -> bool {
        fits_sink(sample_rate_of(*self), channels_of(*self))
    }

    /// Whether a sink can take this track.
    pub fn is_appendable(&self) -> (appendable: bool)
        ensures
            appendable == self.fits(),
    {
        let rate: u64 = track_sample_rate(self) as u64;
        let channels: u64 = track_channels(self) as u64;
        if rate > MAX_EXACT_RATE as u64 {
            return false;
        }
        let period: u64 = CONTROL_PERIOD_MS as u64;
        assert(period == 5);
        let in_period: u64 = period * rate;
        if in_period > u32::MAX as u64 {
            return false;
        }
        let per_channel: u64 = in_period / 1000;
        assert(per_channel * channels <= 0xffff_ffff * 0xffff) by (nonlinear_arith)
            requires
                per_channel <= 0xffff_ffff,
                channels <= 0xffff,
        ;
        per_channel * channels <= u32::MAX as u64
    }
}

/// `SeekError::to_string`: the text that `rodio` gives for a seek error, by
/// its `Display`. Nothing is claimed of the text.
#[verifier::external_body]
pub(crate) fn seek_error_text(error: &SeekError) -> (text: String) {
    error.to_string()
}

/// `Sink::append` queues a source behind those already in the sink. Nothing is
/// claimed of its effect: the sink is opaque. It reads the track's sample
/// rate through a 32-bit float, and multiplies the control period by that
/// rate and by the channels in 32 bits. A track whose rate the float does not
/// hold exactly, or for which the product does not fit, is left out.
#[verifier::external_body]
fn sink_append(sink: &Sink, track: Track)
    requires
        track.fits(),
{
    sink.append(track.source)
}

/// `Sink::play` resumes a paused sink. Nothing is claimed of its effect.
pub assume_specification[ Sink::play ](sink: &Sink)
;

/// `Sink::pause` pauses the sink. Nothing is claimed of its effect.
pub assume_specification[ Sink::pause ](sink: &Sink)
;

/// `Sink::stop` asks the sink to empty its queue. Nothing is claimed of its
/// effect.
pub assume_specification[ Sink::stop ](sink: &Sink)
;

/// `Sink::clear` removes the sources that the sink holds, and pauses it.
/// Nothing is claimed of its effect.
pub assume_specification[ Sink::clear ](sink: &Sink)
;

/// `Sink::try_seek` asks the source that is playing to move to a position.
/// Whether that succeeds is for the source to say: nothing is claimed of the
/// answer.
pub assume_specification[ Sink::try_seek ](sink: &Sink, pos: Duration) -> (sought: Result<
    (),
    SeekError,
>)
;

/// `Sink::sleep_until_end` blocks until the last appended source has ended.
/// Nothing is claimed of its effect.
pub assume_specification[ Sink::sleep_until_end ](sink: &Sink)
;

/// One request made of the backend.
pub enum BackendCall {
    /// Resume playback.
    Play,
    /// Pause playback.
    Pause,
    /// Stop playback and empty the queue.
    Stop,
    /// Drop every queued source.
    Clear,
    /// Queue this decoded track.
    Append(Track),
    /// Seek in place to this position, as time from the start of the track.
    Seek(Duration),
    /// Block until the queued track has played to its end.
    WaitUntilEnd,
}

/// The sink, with the history of what was asked of it.
pub struct Backend {
    sink: Sink,
    issued: Ghost<Seq<BackendCall>>,
}

impl Backend {
    /// The requests made so far, oldest first.
    pub closed spec fn issued(&self) -> Seq<BackendCall> {
        self.issued@
    }

    /// The sink that this backend drives.
    pub closed spec fn drives(&self) -> Sink {
        self.sink
    }

    /// Takes over a sink; nothing has been asked of it yet.
    pub fn new(sink: Sink) -> (backend: Backend)
        ensures
            backend.issued() == Seq::<BackendCall>::empty(),
            backend.drives() == sink,
    {
        Backend { sink, issued: Ghost(Seq::empty()) }
    }

    /// Resumes playback.
    pub fn play(&mut self)
        ensures
            final(self).issued() == old(self).issued().push(BackendCall::Play),
            final(self).drives() == old(self).drives(),
    {
        self.sink.play();
        self.issued = Ghost(self.issued@.push(BackendCall::Play));
    }

    /// Pauses playback.
    pub fn pause(&mut self)
        ensures
            final(self).issued() == old(self).issued().push(BackendCall::Pause),
            final(self).drives() == old(self).drives(),
    {
        self.sink.pause();
        self.issued = Ghost(self.issued@.push(BackendCall::Pause));
    }

    /// Stops playback.
    pub fn stop(&mut self)
        ensures
            final(self).issued() == old(self).issued().push(BackendCall::Stop),
            final(self).drives() == old(self).drives(),
    {
        self.sink.stop();
        self.issued = Ghost(self.issued@.push(BackendCall::Stop));
    }

    /// Drops every queued source.
    pub fn clear(&mut self)
        ensures
            final(self).issued() == old(self).issued().push(BackendCall::Clear),
            final(self).drives() == old(self).drives(),
    {
        self.sink.clear();
        self.issued = Ghost(self.issued@.push(BackendCall::Clear));
    }

    /// Queues a decoded track, if the sink can take it, and says whether it
    /// did. A track that the sink cannot take is dropped, and nothing is
    /// asked of the sink.
    pub fn append(&mut self, track: Track) -> (appended: bool)
        ensures
            appended == track.fits(),
            appended ==> final(self).issued() == old(self).issued().push(
                BackendCall::Append(track),
            ),
            !appended ==> final(self).issued() == old(self).issued(),
            final(self).drives() == old(self).drives(),
    {
        if track.is_appendable() {
            let ghost queued = track;
            sink_append(&self.sink, track);
            self.issued = Ghost(self.issued@.push(BackendCall::Append(queued)));
            true
        } else {
            false
        }
    }

    /// Attempts an in-place seek, and hands back what the sink answered.
    pub fn try_seek(&mut self, position: Duration) -> (sought: Result<(), SeekError>)
        ensures
            final(self).issued() == old(self).issued().push(BackendCall::Seek(position)),
            final(self).drives() == old(self).drives(),
    {
        let sought = self.sink.try_seek(position);
        self.issued = Ghost(self.issued@.push(BackendCall::Seek(position)));
        sought
    }

    /// Blocks until the track has played to its end.
    pub fn wait_until_end(&mut self)
        ensures
            final(self).issued() == old(self).issued().push(BackendCall::WaitUntilEnd),
            final(self).drives() == old(self).drives(),
    {
        self.sink.sleep_until_end();
        self.issued = Ghost(self.issued@.push(BackendCall::WaitUntilEnd));
    }
}

} // verus!
