use vstd::prelude::*;

use crossbeam_channel::{Receiver, Sender};
use std::time::{Duration, Instant};

use crate::error::AppError;
use crate::types::{AudioConfig, SampleFormat};

verus! {

#[verifier::external_type_specification]
#[verifier::external_body]
#[verifier::reject_recursive_types(T)]
pub struct ExSender<T>(Sender<T>);

#[verifier::external_type_specification]
#[verifier::external_body]
#[verifier::reject_recursive_types(T)]
pub struct ExReceiver<T>(Receiver<T>);

#[verifier::external_type_specification]
#[verifier::external_body]
pub struct ExInstant(Instant);

/// How many chunks of samples the capture channel holds at most.
pub const CHANNEL_CAPACITY: usize = 100;

/// The longest recording: ten minutes.
pub const MAX_DURATION_MS: u64 = 600000;

/// Calls `crossbeam_channel::bounded`: a channel that holds at most `cap`
/// messages. Nothing is claimed of the two ends.
#[verifier::external_body]
fn channel_bounded<T>(cap: usize) -> (Sender<T>, Receiver<T>) {
    crossbeam_channel::bounded::<T>(cap)
}

/// Calls `Sender::clone`: another sending end of the same channel. It is
/// claimed to be what `Sender::clone` returns for `s`, nothing more.
#[verifier::external_body]
fn sender_clone<T>(s: &Sender<T>) -> (r: Sender<T>)
    ensures
        cloned::<Sender<T>>(*s, r),
{
    s.clone()
}

/// Calls `Receiver::try_recv`, turning its error (empty or disconnected
/// channel) into `None`. What it returns depends on the other threads that
/// use the channel: nothing is claimed of it.
#[verifier::external_body]
fn receiver_try_recv<T>(r: &Receiver<T>) -> Option<T> {
    r.try_recv().ok()
}

/// Calls `Instant::now`. Nothing is claimed of the time it returns.
#[verifier::external_body]
fn instant_now() -> Instant {
    Instant::now()
}

/// Calls `Instant::elapsed`: the time since `start`. It depends on the
/// clock: nothing is claimed of it.
#[verifier::external_body]
fn instant_elapsed(start: &Instant) -> Duration {
    start.elapsed()
}

/// Calls `Duration::as_millis`: the whole milliseconds of `d`. A
/// `Duration` is opaque here, so nothing is claimed of the number.
#[verifier::external_body]
fn duration_millis(d: &Duration) -> u128 {
    d.as_millis()
}

/// The recording length shown for `elapsed_ms` milliseconds since the start:
/// the elapsed time, capped at the maximum.
pub open spec fn capped_duration(elapsed_ms: nat, max_ms: nat) -> nat {
    if elapsed_ms > max_ms {
        max_ms
    } else {
        elapsed_ms
    }
}

/// The recording length for `elapsed_ms` milliseconds since the start,
/// capped at `max_ms`.
pub fn capped_duration_ms(elapsed_ms: u128, max_ms: u64) -> (r: u64)
    ensures
        r == capped_duration(elapsed_ms as nat, max_ms as nat),
{
    if elapsed_ms > max_ms as u128 {
        max_ms
    } else {
        elapsed_ms as u64
    }
}

/// Whether `elapsed_ms` milliseconds reach the limit of `max_ms`.
pub fn duration_limit_reached(elapsed_ms: u128, max_ms: u64) -> (r: bool)
    ensures
        r == (elapsed_ms >= max_ms),
{
    elapsed_ms >= max_ms as u128
}

/// The length of a recording is never more than the maximum, and the limit
/// is reached exactly when the capped length equals the maximum.
pub proof fn lemma_duration_capped(elapsed_ms: nat, max_ms: nat)
    ensures
        capped_duration(elapsed_ms, max_ms) <= max_ms,
        capped_duration(elapsed_ms, max_ms) <= elapsed_ms,
        (elapsed_ms >= max_ms) <==> capped_duration(elapsed_ms, max_ms) == max_ms,
{
}

/// The samples of the first channel of interleaved `data`: the first sample
/// of each frame of `channels` samples (the last frame may be short). With
/// one channel or none, the data as it is.
pub open spec fn first_channel_spec<T>(data: Seq<T>, channels: nat) -> Seq<T> {
    if channels > 1 {
        Seq::new(
            ((data.len() + channels - 1) / (channels as int)) as nat,
            |i: int| data[i * channels],
        )
    } else {
        data
    }
}

/// Keeps the first channel of interleaved samples, as the capture callback
/// does before it hands the samples on.
pub fn first_channel<T: Copy>(data: &[T], channels: u16) -> (r: Vec<T>)
    ensures
        r@ == first_channel_spec(data@, channels as nat),
{
    let n = data.len();
    let mut r: Vec<T> = Vec::new();
    if channels > 1 {
        let step = channels as usize;
        assert((n / step) * 2 <= n) by (nonlinear_arith)
            requires
                step > 1,
        ;
        let frames: usize = n / step + if n % step == 0 { 0 } else { 1 };
        assert(frames == (n + step - 1) / (step as int)) by (nonlinear_arith)
            requires
                frames == n / step + if n % step == 0 { 0int } else { 1int },
                step > 1,
        ;
        for k in 0..frames
            invariant
                n == data@.len(),
                step == channels,
                step > 1,
                frames == n / step + if n % step == 0 { 0int } else { 1int },
                r@.len() == k,
                forall|j: int| 0 <= j < k ==> r@[j] == data@[j * step],
        {
            assert(k * step < n) by (nonlinear_arith)
                requires
                    k < frames,
                    frames == n / step + if n % step == 0 { 0int } else { 1int },
                    step > 1,
            ;
            r.push(data[k * step]);
        }
        assert(r@ =~= first_channel_spec(data@, channels as nat));
    } else {
        for i in 0..n
            invariant
                n == data@.len(),
                r@ == data@.take(i as int),
        {
            r.push(data[i]);
            assert(r@ =~= data@.take(i + 1));
        }
        assert(data@.take(n as int) =~= data@);
    }
    r
}

/// The samples of `chunks`, one chunk after the other, in order.
pub open spec fn joined<T>(chunks: Seq<Vec<T>>) -> Seq<T> {
    chunks.map_values(|c: Vec<T>| c@).flatten()
}

/// Joins chunks of samples into one buffer, keeping their order.
pub fn concat_chunks<T>(chunks: Vec<Vec<T>>) -> (r: Vec<T>)
    ensures
        r@ == joined(chunks@),
{
    let ghost total = joined(chunks@);
    let mut rest = chunks;
    let mut out: Vec<T> = Vec::new();
    while rest.len() > 0
        invariant
            out@ + joined(rest@) == total,
        decreases rest@.len(),
    {
        let ghost before = rest@;
        let mut chunk = rest.remove(0);
        proof {
            assert(rest@ =~= before.drop_first());
            let m = before.map_values(|c: Vec<T>| c@);
            assert(m.drop_first() =~= rest@.map_values(|c: Vec<T>| c@));
            assert(m.first() == chunk@);
            assert(joined(before) == chunk@ + joined(rest@));
        }
        let ghost old_out = out@;
        let ghost cv = chunk@;
        out.append(&mut chunk);
        proof {
            assert(out@ + joined(rest@) =~= old_out + (cv + joined(rest@)));
        }
    }
    proof {
        assert(rest@.map_values(|c: Vec<T>| c@) =~= Seq::<Seq<T>>::empty());
        assert(out@ =~= out@ + joined(rest@));
    }
    out
}

/// The samples of the chunks among `replies`, in order.
pub open spec fn replied_samples<T>(replies: Seq<Option<Seq<T>>>) -> Seq<T>
    decreases replies.len(),
{
    if replies.len() == 0 {
        Seq::empty()
    } else {
        match replies.last() {
            Some(c) => replied_samples(replies.drop_last()) + c,
            None => replied_samples(replies.drop_last()),
        }
    }
}

/// Whether a drain of the channel was carried through: every reply but the
/// last handed over a chunk, and it stopped either because the channel
/// reported empty or because it took as many chunks as the channel holds.
pub open spec fn drain_complete<T>(replies: Seq<Option<Seq<T>>>) -> bool {
    &&& replies.len() <= CHANNEL_CAPACITY
    &&& forall|i: int| 0 <= i < replies.len() - 1 ==> (#[trigger] replies[i]) is Some
    &&& (replies.len() == CHANNEL_CAPACITY && replies.last() is Some) || (replies.len() > 0
        && replies.last() is None)
}

proof fn lemma_replied_prefix<T>(replies: Seq<Option<Seq<T>>>, k: int)
    requires
        0 <= k <= replies.len(),
    ensures
        replied_samples(replies.take(k)).len() <= replied_samples(replies).len(),
        replied_samples(replies).subrange(0, replied_samples(replies.take(k)).len() as int)
            == replied_samples(replies.take(k)),
    decreases replies.len(),
{
    if k == replies.len() {
        assert(replies.take(k) =~= replies);
        assert(replied_samples(replies).subrange(0, replied_samples(replies).len() as int)
            =~= replied_samples(replies));
    } else {
        let p = replies.drop_last();
        lemma_replied_prefix(p, k);
        assert(p.take(k) =~= replies.take(k));
        let a = replied_samples(p);
        let b = replied_samples(p.take(k));
        match replies.last() {
            Some(c) => {
                assert((a + c).subrange(0, b.len() as int) =~= a.subrange(0, b.len() as int));
            },
            None => {},
        }
    }
}

/// Every chunk that the channel handed over during a drain stands in the
/// drained samples, whole and in its place: right after the samples of the
/// chunks handed over before it.
pub proof fn lemma_drain_keeps_every_chunk<T>(replies: Seq<Option<Seq<T>>>, i: int)
    requires
        0 <= i < replies.len(),
        replies[i] is Some,
    ensures
        ({
            let before = replied_samples(replies.take(i));
            let chunk = replies[i]->0;
            let all = replied_samples(replies);
            &&& before.len() + chunk.len() <= all.len()
            &&& all.subrange(0, before.len() as int) == before
            &&& all.subrange(before.len() as int, (before.len() + chunk.len()) as int) == chunk
        }),
{
    let before = replied_samples(replies.take(i));
    let chunk = replies[i]->0;
    let t = replies.take(i + 1);
    assert(t.drop_last() =~= replies.take(i));
    assert(replied_samples(t) == before + chunk);
    lemma_replied_prefix(replies, i + 1);
    lemma_replied_prefix(replies, i);
    let all = replied_samples(replies);
    assert(all.subrange(0, (before.len() + chunk.len()) as int) == before + chunk);
    assert(all.subrange(before.len() as int, (before.len() + chunk.len()) as int) =~= (before
        + chunk).subrange(before.len() as int, (before.len() + chunk.len()) as int));
    assert((before + chunk).subrange(before.len() as int, (before.len() + chunk.len()) as int) =~= chunk);
}

/// A completed drain stops short of the channel's capacity only when the
/// channel reported empty; before that, every reply handed over a chunk.
pub proof fn lemma_drain_stops_only_when_empty<T>(replies: Seq<Option<Seq<T>>>)
    requires
        drain_complete(replies),
        replies.len() < CHANNEL_CAPACITY,
    ensures
        replies.last() is None,
        forall|i: int| 0 <= i < replies.len() - 1 ==> (#[trigger] replies[i]) is Some,
{
}

/// The state of one recording.
///
/// `S` is the capture stream that the device delivers into the channel;
/// dropping it stops the capture. `T` is the type of one sample. Chunks of
/// samples travel from the capture callback to the recorder through a
/// bounded channel.
#[verifier::reject_recursive_types(T)]
pub struct AudioRecorder<S, T> {
    config: AudioConfig,
    stream: Option<S>,
    samples_sender: Option<Sender<Vec<T>>>,
    samples_receiver: Option<Receiver<Vec<T>>>,
    /// When the recording started, if it has.
    pub start_time: Option<Instant>,
    max_duration_ms: u64,
    /// The replies of the capture channel to the last drain, in order:
    /// each chunk it handed over, then `None` where it reported empty.
    drain_replies: Ghost<Seq<Option<Seq<T>>>>,
}

impl<S, T> AudioRecorder<S, T> {
    /// Every recorder caps its recordings at ten minutes.
    #[verifier::type_invariant]
    spec fn limit_is_ten_minutes(self) -> bool {
        self.max_duration_ms == MAX_DURATION_MS
    }

    /// The configuration the recorder was made with.
    pub closed spec fn spec_config(&self) -> AudioConfig {
        self.config
    }

    /// Whether a capture stream is running.
    pub closed spec fn is_recording(&self) -> bool {
        self.stream is Some
    }

    /// Whether the sending end is still held.
    pub closed spec fn has_sender(&self) -> bool {
        self.samples_sender is Some
    }

    /// Whether the receiving end is still held.
    pub closed spec fn has_receiver(&self) -> bool {
        self.samples_receiver is Some
    }

    /// The channel's replies to the last drain.
    pub closed spec fn last_drain(&self) -> Seq<Option<Seq<T>>> {
        self.drain_replies@
    }

    /// The sending end held, if any.
    pub closed spec fn spec_sender(&self) -> Option<Sender<Vec<T>>> {
        self.samples_sender
    }

    /// The capture stream held, if any.
    pub closed spec fn spec_stream(&self) -> Option<S> {
        self.stream
    }

    /// When the recording started, if it has.
    pub closed spec fn spec_start_time(&self) -> Option<Instant> {
        self.start_time
    }

    /// The longest recording, in milliseconds.
    pub closed spec fn max_duration(&self) -> nat {
        self.max_duration_ms as nat
    }

    /// A recorder for `config`, not yet recording, with a fresh channel and
    /// a limit of ten minutes. Both sample formats are accepted.
    pub fn new(config: AudioConfig) -> (r: Result<Self, AppError>)
        ensures
            r matches Ok(rec) && {
                &&& rec.spec_config() == config
                &&& !rec.is_recording()
                &&& rec.has_sender()
                &&& rec.has_receiver()
                &&& rec.spec_start_time() is None
                &&& rec.max_duration() == MAX_DURATION_MS
            },
    {
        if config.sample_format != SampleFormat::F32 && config.sample_format != SampleFormat::I16 {
            return Err(
                AppError::AudioError(
                    String::from_str("Only F32 and I16 sample formats are supported"),
                ),
            );
        }
        let (samples_sender, samples_receiver) = channel_bounded::<Vec<T>>(CHANNEL_CAPACITY);
        Ok(
            AudioRecorder {
                config,
                stream: None,
                samples_sender: Some(samples_sender),
                samples_receiver: Some(samples_receiver),
                start_time: None,
                max_duration_ms: MAX_DURATION_MS,
                drain_replies: Ghost(Seq::empty()),
            },
        )
    }

    /// The configuration the recorder was made with.
    pub fn config(&self) -> (c: AudioConfig)
        ensures
            c == self.spec_config(),
    {
        self.config
    }

    /// A sending end for the capture callback to deliver chunks of samples.
    pub fn sender(&self) -> (r: Result<Sender<Vec<T>>, AppError>)
        ensures
            self.has_sender() <==> r is Ok,
            r matches Ok(x) ==> cloned::<Sender<Vec<T>>>(self.spec_sender().unwrap(), x),
            r matches Err(e) ==> e matches AppError::AudioError(m) && m@
                == "Samples sender already consumed"@,
    {
        match &self.samples_sender {
            Some(s) => Ok(sender_clone(s)),
            None => Err(AppError::AudioError(String::from_str("Samples sender already consumed"))),
        }
    }

    /// Takes over a running capture stream and notes the start time.
    pub fn start_recording(&mut self, stream: S)
        ensures
            final(self).spec_stream() == Some(stream),
            final(self).is_recording(),
            final(self).spec_start_time() is Some,
            final(self).spec_config() == old(self).spec_config(),
            final(self).has_sender() == old(self).has_sender(),
            final(self).has_receiver() == old(self).has_receiver(),
            final(self).max_duration() == old(self).max_duration(),
    {
        proof {
            use_type_invariant(&*self);
        }
        self.stream = Some(stream);
        self.start_time = Some(instant_now());
    }

    /// Stops the capture and collects the chunks of samples that the channel
    /// holds, in the order they came.
    ///
    /// Fails when no capture is running, and when the samples were already
    /// collected.
    pub fn stop_recording(&mut self) -> (r: Result<Vec<T>, AppError>)
        ensures
            !final(self).is_recording(),
            final(self).spec_config() == old(self).spec_config(),
            final(self).has_sender() == old(self).has_sender(),
            final(self).spec_start_time() == old(self).spec_start_time(),
            final(self).max_duration() == old(self).max_duration(),
            !old(self).is_recording() ==> {
                &&& r matches Err(e) && e matches AppError::AudioError(m) && m@
                    == "Recording not started or already stopped"@
                &&& final(self).has_receiver() == old(self).has_receiver()
            },
            r matches Ok(samples) ==> exists|chunks: Seq<Vec<T>>|
                #![trigger joined(chunks)]
                chunks.len() <= CHANNEL_CAPACITY && samples@ == joined(chunks),
            old(self).is_recording() && old(self).has_receiver() ==> {
                &&& drain_complete(final(self).last_drain())
                &&& r matches Ok(samples) && samples@ == replied_samples(final(self).last_drain())
            },
            old(self).is_recording() ==> {
                &&& !final(self).has_receiver()
                &&& old(self).has_receiver() <==> r is Ok
                &&& r matches Err(e) ==> e matches AppError::AudioError(m) && m@
                    == "Samples receiver already consumed"@
            },
    {
        proof {
            use_type_invariant(&*self);
        }
        if self.stream.is_none() {
            return Err(
                AppError::AudioError(String::from_str("Recording not started or already stopped")),
            );
        }
        self.stream = None;
        let mut taken: Option<Receiver<Vec<T>>> = None;
        std::mem::swap(&mut taken, &mut self.samples_receiver);
        let receiver = match taken {
            Some(rx) => rx,
            None => {
                return Err(
                    AppError::AudioError(String::from_str("Samples receiver already consumed")),
                );
            },
        };
        let mut received: Vec<Vec<T>> = Vec::new();
        let ghost mut replies: Seq<Option<Seq<T>>> = Seq::empty();
        // The channel holds at most CHANNEL_CAPACITY chunks, and the stream
        // that fed it is gone: the drain goes on until the channel reports
        // empty, or until it has taken that many.
        let mut drained: usize = 0;
        let mut emptied = false;
        while drained < CHANNEL_CAPACITY && !emptied
            invariant
                drained <= CHANNEL_CAPACITY,
                replies.len() == drained,
                received@.len() <= drained,
                joined(received@) == replied_samples(replies),
                forall|i: int| 0 <= i < replies.len() - 1 ==> (#[trigger] replies[i]) is Some,
                emptied ==> replies.len() > 0 && replies.last() is None,
                !emptied ==> (replies.len() > 0 ==> replies.last() is Some),
            decreases CHANNEL_CAPACITY - drained,
        {
            let ghost before = replies;
            match receiver_try_recv(&receiver) {
                Some(chunk) => {
                    proof {
                        replies = replies.push(Some(chunk@));
                        received@.map_values(|c: Vec<T>| c@).lemma_flatten_push(chunk@);
                        assert(received@.push(chunk).map_values(|c: Vec<T>| c@) =~= received@.map_values(
                            |c: Vec<T>| c@,
                        ).push(chunk@));
                        assert(replies.drop_last() =~= before);
                    }
                    received.push(chunk);
                },
                None => {
                    proof {
                        replies = replies.push(None);
                        assert(replies.drop_last() =~= before);
                    }
                    emptied = true;
                },
            }
            drained = drained + 1;
        }
        self.drain_replies = Ghost(replies);
        Ok(concat_chunks(received))
    }

    /// Milliseconds since the recording started, capped at the maximum;
    /// 0 before the start.
    pub fn get_duration_ms(&self) -> (d: u64)
        ensures
            self.spec_start_time() is None ==> d == 0,
            d <= self.max_duration(),
            d <= MAX_DURATION_MS,
    {
        proof {
            use_type_invariant(self);
        }
        match &self.start_time {
            Some(start) => capped_duration_ms(duration_millis(&instant_elapsed(start)), self.max_duration_ms),
            None => 0,
        }
    }

    /// Whether the recording has lasted as long as the maximum; false before
    /// the start.
    pub fn is_max_duration_reached(&self) -> (b: bool)
        ensures
            self.spec_start_time() is None ==> !b,
    {
        match &self.start_time {
            Some(start) => duration_limit_reached(duration_millis(&instant_elapsed(start)), self.max_duration_ms),
            None => false,
        }
    }
}

} // verus!
