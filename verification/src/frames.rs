use crate::format::Format;
use crate::sample::splice;
use crate::sample::Sample;
use core::marker::PhantomData;
use vstd::arithmetic::div_mod::lemma_fundamental_div_mod;
use vstd::arithmetic::div_mod::lemma_mod_breakdown;
use vstd::prelude::*;

verus! {

/// The number of bytes that one frame occupies: one sample for each channel.
pub open spec fn frame_width(format: Format, channels: nat) -> nat {
    format.width() * channels
}

/// Whether a buffer of `len` bytes holds a whole number of frames of `channels`
/// samples of `format`.
pub open spec fn well_shaped(len: nat, format: Format, channels: nat) -> bool {
    &&& format != Format::Unknown
    &&& channels > 0
    &&& len % frame_width(format, channels) == 0
}

/// Why a buffer cannot be viewed as frames.
#[derive(Debug, Clone, Copy, PartialEq, Eq, Structural)]
pub enum ShapeError {
    /// The format is `Format::Unknown`.
    UnknownFormat,
    /// The channel count is zero.
    NoChannels,
    /// The byte length is no multiple of the frame width.
    PartialFrame,
}

/// The reason why a buffer is not well shaped, if it is not.
pub open spec fn shape_error(len: nat, format: Format, channels: nat) -> Option<ShapeError> {
    if format == Format::Unknown {
        Some(ShapeError::UnknownFormat)
    } else if channels == 0 {
        Some(ShapeError::NoChannels)
    } else if len % frame_width(format, channels) != 0 {
        Some(ShapeError::PartialFrame)
    } else {
        None
    }
}

/// A buffer is well shaped exactly when it has no shape error.
pub proof fn lemma_shape_error_iff(len: nat, format: Format, channels: nat)
    ensures
        well_shaped(len, format, channels) <==> shape_error(len, format, channels) is None,
{
}

/// A length is a multiple of `width * channels` exactly when it is a multiple
/// of `width` whose quotient is a multiple of `channels`.
proof fn lemma_multiple_in_steps(len: nat, width: nat, channels: nat)
    requires
        width > 0,
        channels > 0,
    ensures
        len % (width * channels) == 0 <==> (len % width == 0 && (len / width) % channels == 0),
        len % (width * channels) == 0 ==> len == (len / width / channels) * channels * width,
{
    lemma_mod_breakdown(len as int, width as int, channels as int);
    lemma_fundamental_div_mod(len as int, width as int);
    lemma_fundamental_div_mod((len / width) as int, channels as int);
    let samples = len / width;
    let inner = samples % channels;
    assert(0 <= inner);
    assert(width * inner >= 0) by (nonlinear_arith)
        requires
            width > 0,
            inner >= 0,
    ;
    assert(width * inner == 0 <==> inner == 0) by (nonlinear_arith)
        requires
            width > 0,
            inner >= 0,
    ;
    assert(0 <= len % width) by (nonlinear_arith)
        requires
            width > 0,
    ;
    assert(len % (width * channels) == width * inner + len % width);
    if len % (width * channels) == 0 {
        let frames = samples / channels;
        assert(len == frames * channels * width) by (nonlinear_arith)
            requires
                len == width * samples,
                samples == channels * frames,
        ;
    }
}

/// Tests whether `len` bytes are a whole number of frames, and says why not.
pub fn check_shape(len: usize, format: Format, channels: usize) -> (result: Result<
    (),
    ShapeError,
>)
    ensures
        result == match shape_error(len as nat, format, channels as nat) {
            Some(error) => Err::<(), ShapeError>(error),
            None => Ok(()),
        },
        result is Ok <==> well_shaped(len as nat, format, channels as nat),
{
    let width = format.size_in_bytes();
    if width == 0 {
        return Err(ShapeError::UnknownFormat);
    }
    if channels == 0 {
        return Err(ShapeError::NoChannels);
    }
    proof {
        lemma_multiple_in_steps(len as nat, width as nat, channels as nat);
    }
    if len % width != 0 || (len / width) % channels != 0 {
        Err(ShapeError::PartialFrame)
    } else {
        Ok(())
    }
}

/// What a view over frames is: the bytes it spans, tagged with the sample
/// format and the number of interleaved channels.
pub struct FramesView {
    pub bytes: Seq<u8>,
    pub format: Format,
    pub channels: nat,
}

impl FramesView {
    pub open spec fn well_formed(self) -> bool {
        well_shaped(self.bytes.len(), self.format, self.channels)
    }

    pub open spec fn sample_count(self) -> nat {
        self.bytes.len() / self.format.width()
    }

    pub open spec fn frame_count(self) -> nat {
        self.sample_count() / self.channels
    }

    pub open spec fn frame_width(self) -> nat {
        frame_width(self.format, self.channels)
    }

    /// The bytes of the first `count` frames.
    pub open spec fn prefix(self, count: int) -> Seq<u8> {
        self.bytes.subrange(0, count * self.frame_width())
    }
}

/// The frames of a well-formed view account for every byte of it.
pub proof fn lemma_frames_cover_bytes(view: FramesView)
    requires
        view.well_formed(),
    ensures
        view.frame_count() * view.channels * view.format.width() == view.bytes.len(),
        view.sample_count() * view.format.width() == view.bytes.len(),
        view.frame_count() * view.frame_width() == view.bytes.len(),
{
    let len = view.bytes.len();
    let width = view.format.width();
    let channels = view.channels;
    lemma_multiple_in_steps(len, width, channels);
    lemma_fundamental_div_mod(len as int, width as int);
    let frames = view.frame_count();
    assert(frames * (width * channels) == frames * channels * width) by (nonlinear_arith);
    assert((len / width) * width == width * (len / width)) by (nonlinear_arith);
}

/// A read-only view of a byte buffer as interleaved frames.
pub struct Frames<'s> {
    data: &'s [u8],
    format: Format,
    channels: usize,
}

impl<'s> View for Frames<'s> {
    type V = FramesView;

    closed spec fn view(&self) -> FramesView {
        FramesView { bytes: self.data@, format: self.format, channels: self.channels as nat }
    }
}

impl<'s> Frames<'s> {
    pub open spec fn well_formed(&self) -> bool {
        self@.well_formed()
    }

    /// Views `data` as frames of `channels` samples of `format`, without
    /// copying. The format must be known, there must be a channel, and the
    /// buffer must hold whole frames; `try_wrap` is for a buffer of which
    /// that is not known.
    pub fn wrap(data: &'s [u8], format: Format, channels: usize) -> (frames: Frames<'s>)
        requires
            well_shaped(data@.len(), format, channels as nat),
        ensures
            frames@ == (FramesView { bytes: data@, format, channels: channels as nat }),
            frames.well_formed(),
    {
        Frames { data, format, channels }
    }

    /// Views `data` as frames if it holds a whole number of them, and says
    /// why not if it does not.
    pub fn try_wrap(data: &'s [u8], format: Format, channels: usize) -> (result: Result<
        Frames<'s>,
        ShapeError,
    >)
        ensures
            match result {
                Ok(frames) => {
                    &&& well_shaped(data@.len(), format, channels as nat)
                    &&& frames@ == (FramesView { bytes: data@, format, channels: channels as nat })
                },
                Err(error) => shape_error(data@.len(), format, channels as nat) == Some(error),
            },
    {
        match check_shape(data.len(), format, channels) {
            Ok(()) => Ok(Frames { data, format, channels }),
            Err(error) => Err(error),
        }
    }

    pub fn format(&self) -> (format: Format)
        ensures
            format == self@.format,
    {
        self.format
    }

    pub fn channels(&self) -> (channels: usize)
        ensures
            channels == self@.channels,
    {
        self.channels
    }

    pub fn byte_count(&self) -> (count: usize)
        ensures
            count == self@.bytes.len(),
    {
        self.data.len()
    }

    pub fn sample_count(&self) -> (count: usize)
        requires
            self.well_formed(),
        ensures
            count == self@.sample_count(),
            count * self@.format.width() == self@.bytes.len(),
    {
        proof {
            lemma_frames_cover_bytes(self@);
        }
        self.data.len() / self.format.size_in_bytes()
    }

    pub fn frame_count(&self) -> (count: usize)
        requires
            self.well_formed(),
        ensures
            count == self@.frame_count(),
            count * self@.channels * self@.format.width() == self@.bytes.len(),
    {
        proof {
            lemma_frames_cover_bytes(self@);
        }
        self.data.len() / self.format.size_in_bytes() / self.channels
    }

    pub fn as_bytes(&self) -> (bytes: &'s [u8])
        ensures
            bytes@ == self@.bytes,
    {
        self.data
    }

    /// Views the samples as values of the representation `S`, which must be
    /// the one that the format of the view names.
    pub fn as_samples<S: Sample>(&self) -> (samples: Samples<'s, S>)
        requires
            self.well_formed(),
            S::spec_format() == self@.format,
        ensures
            samples@ == self@.bytes,
            samples.well_formed(),
    {
        proof {
            lemma_frames_cover_bytes(self@);
            lemma_whole_samples(self@.sample_count(), self@.format.width());
        }
        Samples { data: self.data, marker: PhantomData }
    }

    /// Starts a walk over the frames, from the first one. Each call starts
    /// a walk of its own.
    pub fn iter<S: Sample>(&self) -> (iter: FramesIter<'s, S>)
        requires
            self.well_formed(),
            S::spec_format() == self@.format,
        ensures
            iter.remaining() == self@.bytes,
            iter.channels() == self@.channels,
            iter.well_formed(),
            iter.frames_left() == self@.frame_count(),
    {
        proof {
            lemma_frames_cover_bytes(self@);
            lemma_frame_width_positive(self@.format, self@.channels);
            vstd::arithmetic::div_mod::lemma_div_multiples_vanish(
                self@.frame_count() as int,
                self@.frame_width() as int,
            );
            assert(self@.frame_count() * self@.frame_width() == self@.frame_width()
                * self@.frame_count()) by (nonlinear_arith);
        }
        FramesIter { rest: self.data, channels: self.channels, marker: PhantomData }
    }
}

/// A frame of a known format with at least one channel has at least one byte.
proof fn lemma_frame_width_positive(format: Format, channels: nat)
    requires
        format != Format::Unknown,
        channels > 0,
    ensures
        frame_width(format, channels) > 0,
        frame_width(format, channels) >= format.width(),
{
    let width = format.width();
    assert(width * channels >= width) by (nonlinear_arith)
        requires
            width > 0,
            channels > 0,
    ;
}

/// A buffer of whole frames can be viewed as frames, and so can each run of
/// whole frames at its start, and the empty buffer.
pub proof fn lemma_whole_frames(format: Format, channels: nat, frames: nat, count: nat)
    requires
        format != Format::Unknown,
        channels > 0,
        count <= frames,
    ensures
        frame_width(format, channels) > 0,
        well_shaped(frame_width(format, channels) * frames, format, channels),
        well_shaped(frame_width(format, channels) * count, format, channels),
        well_shaped(0, format, channels),
        frame_width(format, channels) * count <= frame_width(format, channels) * frames,
        frame_width(format, channels) * count == count * frame_width(format, channels),
        (frame_width(format, channels) * frames) / format.width() / channels == frames,
{
    let unit = format.width();
    let width = frame_width(format, channels);
    lemma_frame_width_positive(format, channels);
    vstd::arithmetic::div_mod::lemma_mod_multiples_basic(frames as int, width as int);
    vstd::arithmetic::div_mod::lemma_mod_multiples_basic(count as int, width as int);
    assert(width * frames == frames * width) by (nonlinear_arith);
    assert(width * count == count * width) by (nonlinear_arith);
    assert(width * count <= width * frames) by (nonlinear_arith)
        requires
            count <= frames,
            width > 0,
    ;
    let total = width * frames;
    assert(total == unit * (channels * frames)) by (nonlinear_arith)
        requires
            total == width * frames,
            width == unit * channels,
    ;
    vstd::arithmetic::div_mod::lemma_div_multiples_vanish((channels * frames) as int, unit as int);
    vstd::arithmetic::div_mod::lemma_div_multiples_vanish(frames as int, channels as int);
    assert(0nat % width == 0);
}

/// `count` samples of `width` bytes are a whole number of samples.
proof fn lemma_whole_samples(count: nat, width: nat)
    requires
        width > 0,
    ensures
        (count * width) % width == 0,
        (count * width) / width == count,
{
    vstd::arithmetic::div_mod::lemma_mod_multiples_basic(count as int, width as int);
    vstd::arithmetic::div_mod::lemma_div_multiples_vanish(count as int, width as int);
    assert(count * width == width * count) by (nonlinear_arith);
}

/// The item at `index` of `len` bytes cut into items of `width` bytes lies
/// within them.
proof fn lemma_item_in_bounds(index: nat, width: nat, len: nat)
    requires
        width > 0,
        len % width == 0,
        index < len / width,
    ensures
        index * width + width <= len,
{
    lemma_fundamental_div_mod(len as int, width as int);
    let count = len / width;
    assert(index * width + width <= count * width) by (nonlinear_arith)
        requires
            index + 1 <= count,
            width > 0,
    ;
    assert(count * width == width * count) by (nonlinear_arith);
}

/// A non-empty buffer that holds whole items of `width` bytes holds at least
/// one of them.
proof fn lemma_first_item_fits(width: nat, len: nat)
    requires
        width > 0,
        len > 0,
        len % width == 0,
    ensures
        width <= len,
        (len - width) % (width as int) == 0,
        (len - width) / (width as int) == len / width - 1,
{
    lemma_fundamental_div_mod(len as int, width as int);
    let count = len / width;
    assert(count >= 1) by (nonlinear_arith)
        requires
            len == width * count,
            len > 0,
            width > 0,
            count >= 0,
    ;
    assert(width * count >= width) by (nonlinear_arith)
        requires
            count >= 1,
            width > 0,
    ;
    assert(len - width == width * (count - 1)) by (nonlinear_arith)
        requires
            len == width * count,
    ;
    vstd::arithmetic::div_mod::lemma_mod_multiples_basic(count - 1, width as int);
    vstd::arithmetic::div_mod::lemma_div_multiples_vanish(count - 1, width as int);
    assert(width * (count - 1) == (count - 1) * width) by (nonlinear_arith);
}

/// A read-only view of a byte buffer as samples of the representation `S`.
pub struct Samples<'s, S> {
    data: &'s [u8],
    marker: PhantomData<S>,
}

impl<'s, S: Sample> View for Samples<'s, S> {
    type V = Seq<u8>;

    closed spec fn view(&self) -> Seq<u8> {
        self.data@
    }
}

impl<'s, S: Sample> Samples<'s, S> {
    /// The number of bytes of one sample.
    pub open spec fn width() -> nat {
        S::spec_format().width()
    }

    pub open spec fn well_formed(&self) -> bool {
        &&& Self::width() > 0
        &&& self@.len() % Self::width() == 0
    }

    pub open spec fn spec_len(&self) -> nat {
        self@.len() / Self::width()
    }

    /// The bytes of the sample at `index`.
    pub open spec fn element(&self, index: int) -> Seq<u8> {
        self@.subrange(index * Self::width(), (index + 1) * Self::width())
    }

    pub fn len(&self) -> (len: usize)
        requires
            self.well_formed(),
        ensures
            len == self.spec_len(),
    {
        self.data.len() / S::format().size_in_bytes()
    }

    /// Reads the sample at `index`.
    pub fn get(&self, index: usize) -> (sample: S)
        requires
            self.well_formed(),
            index < self.spec_len(),
        ensures
            sample.encoding() == self.element(index as int),
    {
        let width = S::format().size_in_bytes();
        proof {
            lemma_item_in_bounds(index as nat, width as nat, self@.len());
            assert((index + 1) * width == index * width + width) by (nonlinear_arith);
            assert(index * width + width <= self.data.len());
        }
        S::read(self.data, index * width)
    }

    /// Reads all the samples, in order.
    pub fn to_vec(&self) -> (samples: Vec<S>)
        requires
            self.well_formed(),
        ensures
            samples@.len() == self.spec_len(),
            forall|k: int|
                0 <= k < samples@.len() ==> (#[trigger] samples@[k]).encoding() == self.element(k),
    {
        let count = self.len();
        let mut samples: Vec<S> = Vec::new();
        let mut index: usize = 0;
        while index < count
            invariant
                self.well_formed(),
                count == self.spec_len(),
                index <= count,
                samples@.len() == index,
                forall|k: int|
                    0 <= k < index ==> (#[trigger] samples@[k]).encoding() == self.element(k),
            decreases count - index,
        {
            let sample = self.get(index);
            samples.push(sample);
            index += 1;
        }
        samples
    }
}

/// A walk over the frames of a read-only view, one frame at a time.
pub struct FramesIter<'s, S> {
    rest: &'s [u8],
    channels: usize,
    marker: PhantomData<S>,
}

impl<'s, S: Sample> FramesIter<'s, S> {
    /// The bytes of the frames that are still to come.
    pub closed spec fn remaining(&self) -> Seq<u8> {
        self.rest@
    }

    pub closed spec fn channels(&self) -> nat {
        self.channels as nat
    }

    pub open spec fn frame_width(&self) -> nat {
        frame_width(S::spec_format(), self.channels())
    }

    pub open spec fn well_formed(&self) -> bool {
        well_shaped(self.remaining().len(), S::spec_format(), self.channels())
    }

    /// The number of frames that are still to come.
    pub open spec fn frames_left(&self) -> nat {
        self.remaining().len() / self.frame_width()
    }

    /// The number of frames that are still to come.
    pub fn len(&self) -> (len: usize)
        requires
            self.well_formed(),
        ensures
            len == self.frames_left(),
    {
        if self.rest.len() == 0 {
            return 0;
        }
        let width = S::format().size_in_bytes();
        proof {
            lemma_frame_width_positive(S::spec_format(), self.channels());
            lemma_first_item_fits(self.frame_width(), self.remaining().len());
        }
        self.rest.len() / (width * self.channels)
    }

    /// Hands out the next frame, as long as there is one: a walk ends after
    /// as many frames as it had left.
    pub fn next(&mut self) -> (item: Option<Samples<'s, S>>)
        requires
            old(self).well_formed(),
        ensures
            final(self).well_formed(),
            final(self).channels() == old(self).channels(),
            match item {
                Some(frame) => {
                    &&& old(self).remaining().len() > 0
                    &&& final(self).frames_left() + 1 == old(self).frames_left()
                    &&& frame.well_formed()
                    &&& frame.spec_len() == old(self).channels()
                    &&& frame@ == old(self).remaining().subrange(
                        0,
                        old(self).frame_width() as int,
                    )
                    &&& final(self).remaining() == old(self).remaining().subrange(
                        old(self).frame_width() as int,
                        old(self).remaining().len() as int,
                    )
                },
                None => {
                    &&& old(self).remaining().len() == 0
                    &&& old(self).frames_left() == 0
                    &&& final(self).remaining() == old(self).remaining()
                },
            },
    {
        proof {
            lemma_frame_width_positive(S::spec_format(), self.channels());
            lemma_whole_samples(0, self.frame_width());
        }
        if self.rest.len() == 0 {
            return None;
        }
        let width = S::format().size_in_bytes();
        proof {
            lemma_frame_width_positive(S::spec_format(), self.channels());
            lemma_first_item_fits(self.frame_width(), self.remaining().len());
            lemma_whole_samples(self.channels(), width as nat);
            assert(width * self.channels == self.channels * width) by (nonlinear_arith);
        }
        let (head, tail) = self.rest.split_at(width * self.channels);
        self.rest = tail;
        Some(Samples { data: head, marker: PhantomData })
    }
}

/// A view of a byte buffer as interleaved frames that can be written through.
pub struct FramesMut<'s> {
    data: &'s mut [u8],
    format: Format,
    channels: usize,
}

impl<'s> View for FramesMut<'s> {
    type V = FramesView;

    open spec fn view(&self) -> FramesView {
        FramesView {
            bytes: self.span()@,
            format: self.spec_format(),
            channels: self.spec_channels(),
        }
    }
}

impl<'s> FramesMut<'s> {
    /// The borrowed buffer: what it holds now and, by `final`, what it will
    /// hold when this view is gone.
    pub closed spec fn span(self) -> &'s mut [u8] {
        self.data
    }

    pub closed spec fn spec_format(&self) -> Format {
        self.format
    }

    /// Once a view is gone, its buffer holds what the view held last.
    pub proof fn lemma_released(self)
        requires
            has_resolved(self),
        ensures
            final(self.span())@ == self@.bytes,
    {
    }

    pub closed spec fn spec_channels(&self) -> nat {
        self.channels as nat
    }

    pub open spec fn well_formed(&self) -> bool {
        self@.well_formed()
    }

    /// Views `data` as frames of `channels` samples of `format`, without
    /// copying. The format must be known, there must be a channel, and the
    /// buffer must hold whole frames; `try_wrap` is for a buffer of which
    /// that is not known.
    pub fn wrap(data: &'s mut [u8], format: Format, channels: usize) -> (frames: FramesMut<'s>)
        requires
            well_shaped(old(data)@.len(), format, channels as nat),
        ensures
            frames@ == (FramesView { bytes: old(data)@, format, channels: channels as nat }),
            frames.well_formed(),
            final(frames.span())@ == final(data)@,
    {
        FramesMut { data, format, channels }
    }

    /// Views `data` as frames if it holds a whole number of them, and says
    /// why not if it does not; the buffer is then left as it is.
    pub fn try_wrap(data: &'s mut [u8], format: Format, channels: usize) -> (result: Result<
        FramesMut<'s>,
        ShapeError,
    >)
        ensures
            match result {
                Ok(frames) => {
                    &&& well_shaped(old(data)@.len(), format, channels as nat)
                    &&& frames@ == (FramesView {
                        bytes: old(data)@,
                        format,
                        channels: channels as nat,
                    })
                    &&& final(frames.span())@ == final(data)@
                },
                Err(error) => {
                    &&& shape_error(old(data)@.len(), format, channels as nat) == Some(error)
                    &&& final(data)@ == old(data)@
                },
            },
    {
        match check_shape(data.len(), format, channels) {
            Ok(()) => Ok(FramesMut { data, format, channels }),
            Err(error) => Err(error),
        }
    }

    pub fn format(&self) -> (format: Format)
        ensures
            format == self@.format,
    {
        self.format
    }

    pub fn channels(&self) -> (channels: usize)
        ensures
            channels == self@.channels,
    {
        self.channels
    }

    pub fn byte_count(&self) -> (count: usize)
        ensures
            count == self@.bytes.len(),
    {
        self.data.len()
    }

    pub fn sample_count(&self) -> (count: usize)
        requires
            self.well_formed(),
        ensures
            count == self@.sample_count(),
            count * self@.format.width() == self@.bytes.len(),
    {
        proof {
            lemma_frames_cover_bytes(self@);
        }
        self.data.len() / self.format.size_in_bytes()
    }

    pub fn frame_count(&self) -> (count: usize)
        requires
            self.well_formed(),
        ensures
            count == self@.frame_count(),
            count * self@.channels * self@.format.width() == self@.bytes.len(),
    {
        proof {
            lemma_frames_cover_bytes(self@);
        }
        self.data.len() / self.format.size_in_bytes() / self.channels
    }

    pub fn as_bytes(&self) -> (bytes: &[u8])
        ensures
            bytes@ == self@.bytes,
    {
        self.data
    }

    /// Hands out the bytes for writing. The view is as it was, but for the
    /// bytes that the caller leaves in them.
    pub fn as_bytes_mut(&mut self) -> (bytes: &mut [u8])
        ensures
            bytes@ == old(self)@.bytes,
            final(self)@ == (FramesView { bytes: final(bytes)@, ..old(self)@ }),
            final(final(self).span())@ == final(old(self).span())@,
    {
        self.data
    }

    /// Views the samples as values of the representation `S`, which must be
    /// the one that the format of the view names.
    pub fn as_samples<S: Sample>(&self) -> (samples: Samples<'_, S>)
        requires
            self.well_formed(),
            S::spec_format() == self@.format,
        ensures
            samples@ == self@.bytes,
            samples.well_formed(),
    {
        proof {
            lemma_frames_cover_bytes(self@);
            lemma_whole_samples(self@.sample_count(), self@.format.width());
        }
        Samples { data: self.data, marker: PhantomData }
    }

    /// Views the samples as values of the representation `S` that can be
    /// replaced. The view is as it was, but for the bytes that the caller
    /// leaves in the samples.
    pub fn as_samples_mut<S: Sample>(&mut self) -> (samples: SamplesMut<'_, S>)
        requires
            old(self).well_formed(),
            S::spec_format() == old(self)@.format,
        ensures
            samples@ == old(self)@.bytes,
            samples.well_formed(),
            final(self)@ == (FramesView { bytes: final(samples.span())@, ..old(self)@ }),
            final(final(self).span())@ == final(old(self).span())@,
    {
        proof {
            lemma_frames_cover_bytes(self@);
            lemma_whole_samples(self@.sample_count(), self@.format.width());
        }
        SamplesMut { data: self.data, marker: PhantomData }
    }

    /// Starts a walk over the frames, from the first one. Each call starts
    /// a walk of its own.
    pub fn iter<S: Sample>(&self) -> (iter: FramesIter<'_, S>)
        requires
            self.well_formed(),
            S::spec_format() == self@.format,
        ensures
            iter.remaining() == self@.bytes,
            iter.channels() == self@.channels,
            iter.well_formed(),
            iter.frames_left() == self@.frame_count(),
    {
        proof {
            lemma_frames_cover_bytes(self@);
            lemma_frame_width_positive(self@.format, self@.channels);
            vstd::arithmetic::div_mod::lemma_div_multiples_vanish(
                self@.frame_count() as int,
                self@.frame_width() as int,
            );
            assert(self@.frame_count() * self@.frame_width() == self@.frame_width()
                * self@.frame_count()) by (nonlinear_arith);
        }
        FramesIter { rest: self.data, channels: self.channels, marker: PhantomData }
    }

    /// Starts a walk over the frames, from the first one, that hands each
    /// frame out for writing. The view is as it was, but for the bytes that
    /// the caller leaves in the frames.
    pub fn iter_mut<S: Sample>(&mut self) -> (iter: FramesIterMut<'_, S>)
        requires
            old(self).well_formed(),
            S::spec_format() == old(self)@.format,
        ensures
            iter.remaining() == old(self)@.bytes,
            iter.channels() == old(self)@.channels,
            iter.well_formed(),
            iter.frames_left() == old(self)@.frame_count(),
            final(self)@ == (FramesView { bytes: final(iter.span())@, ..old(self)@ }),
            final(final(self).span())@ == final(old(self).span())@,
    {
        proof {
            lemma_frames_cover_bytes(self@);
            lemma_frame_width_positive(self@.format, self@.channels);
            vstd::arithmetic::div_mod::lemma_div_multiples_vanish(
                self@.frame_count() as int,
                self@.frame_width() as int,
            );
            assert(self@.frame_count() * self@.frame_width() == self@.frame_width()
                * self@.frame_count()) by (nonlinear_arith);
        }
        FramesIterMut { rest: Some(self.data), channels: self.channels, marker: PhantomData }
    }
}

/// A view of a byte buffer as samples of the representation `S` that can be
/// replaced.
pub struct SamplesMut<'s, S> {
    data: &'s mut [u8],
    marker: PhantomData<S>,
}

impl<'s, S: Sample> View for SamplesMut<'s, S> {
    type V = Seq<u8>;

    open spec fn view(&self) -> Seq<u8> {
        self.span()@
    }
}

impl<'s, S: Sample> SamplesMut<'s, S> {
    /// The borrowed buffer: what it holds now and, by `final`, what it will
    /// hold when this view is gone.
    pub closed spec fn span(self) -> &'s mut [u8] {
        self.data
    }

    /// Once a view is gone, its buffer holds what the view held last.
    pub proof fn lemma_released(self)
        requires
            has_resolved(self),
        ensures
            final(self.span())@ == self@,
    {
    }

    /// The number of bytes of one sample.
    pub open spec fn width() -> nat {
        S::spec_format().width()
    }

    pub open spec fn well_formed(&self) -> bool {
        &&& Self::width() > 0
        &&& self@.len() % Self::width() == 0
    }

    pub open spec fn spec_len(&self) -> nat {
        self@.len() / Self::width()
    }

    /// The bytes of the sample at `index`.
    pub open spec fn element(&self, index: int) -> Seq<u8> {
        self@.subrange(index * Self::width(), (index + 1) * Self::width())
    }

    pub fn len(&self) -> (len: usize)
        requires
            self.well_formed(),
        ensures
            len == self.spec_len(),
    {
        self.data.len() / S::format().size_in_bytes()
    }

    /// Reads the sample at `index`.
    pub fn get(&self, index: usize) -> (sample: S)
        requires
            self.well_formed(),
            index < self.spec_len(),
        ensures
            sample.encoding() == self.element(index as int),
    {
        let width = S::format().size_in_bytes();
        proof {
            lemma_item_in_bounds(index as nat, width as nat, self@.len());
            assert((index + 1) * width == index * width + width) by (nonlinear_arith);
            assert(index * width + width <= self.data.len());
        }
        S::read(self.data, index * width)
    }

    /// Replaces the sample at `index` by `sample`, and leaves the others.
    pub fn set(&mut self, index: usize, sample: S)
        requires
            old(self).well_formed(),
            index < old(self).spec_len(),
        ensures
            final(self)@ == splice(old(self)@, index * Self::width(), sample.encoding()),
            final(self)@.len() == old(self)@.len(),
            final(self).well_formed(),
            final(self).element(index as int) == sample.encoding(),
            final(final(self).span())@ == final(old(self).span())@,
    {
        let width = S::format().size_in_bytes();
        proof {
            lemma_item_in_bounds(index as nat, width as nat, self@.len());
            assert((index + 1) * width == index * width + width) by (nonlinear_arith);
            assert(index * width + width <= self.data.len());
            sample.lemma_encoding_len();
        }
        sample.write(self.data, index * width);
        proof {
            assert(self@.len() == old(self)@.len());
            assert(self.element(index as int) =~= sample.encoding());
        }
    }
}

/// A walk over the frames of a view, one frame at a time, that hands each
/// frame out for writing. No two frames that it hands out overlap.
pub struct FramesIterMut<'s, S> {
    rest: Option<&'s mut [u8]>,
    channels: usize,
    marker: PhantomData<S>,
}

impl<'s, S: Sample> FramesIterMut<'s, S> {
    /// The borrowed buffer that holds the frames still to come.
    pub closed spec fn span(self) -> &'s mut [u8] {
        self.rest->0
    }

    /// The bytes of the frames that are still to come.
    pub open spec fn remaining(&self) -> Seq<u8> {
        self.span()@
    }

    /// Once a walk is gone, its buffer holds what the frames still to come
    /// held last.
    pub proof fn lemma_released(self)
        requires
            self.well_formed(),
            has_resolved(self),
        ensures
            final(self.span())@ == self.remaining(),
    {
    }

    pub closed spec fn channels(&self) -> nat {
        self.channels as nat
    }

    pub open spec fn frame_width(&self) -> nat {
        frame_width(S::spec_format(), self.channels())
    }

    pub closed spec fn well_formed(&self) -> bool {
        &&& self.rest is Some
        &&& well_shaped(self.remaining().len(), S::spec_format(), self.channels())
    }

    /// The number of frames that are still to come.
    pub open spec fn frames_left(&self) -> nat {
        self.remaining().len() / self.frame_width()
    }

    /// The number of frames that are still to come.
    pub fn len(&self) -> (len: usize)
        requires
            self.well_formed(),
        ensures
            len == self.frames_left(),
    {
        let size = match &self.rest {
            Some(rest) => rest.len(),
            None => 0,
        };
        if size == 0 {
            return 0;
        }
        let width = S::format().size_in_bytes();
        proof {
            lemma_frame_width_positive(S::spec_format(), self.channels());
            lemma_first_item_fits(self.frame_width(), self.remaining().len());
        }
        size / (width * self.channels)
    }

    /// Hands out the next frame, as long as there is one: a walk ends after
    /// as many frames as it had left.
    pub fn next(&mut self) -> (item: Option<SamplesMut<'s, S>>)
        requires
            old(self).well_formed(),
        ensures
            final(self).well_formed(),
            final(self).channels() == old(self).channels(),
            match item {
                Some(frame) => {
                    &&& old(self).remaining().len() > 0
                    &&& final(self).frames_left() + 1 == old(self).frames_left()
                    &&& frame.well_formed()
                    &&& frame.spec_len() == old(self).channels()
                    &&& frame@ == old(self).remaining().subrange(
                        0,
                        old(self).frame_width() as int,
                    )
                    &&& final(self).remaining() == old(self).remaining().subrange(
                        old(self).frame_width() as int,
                        old(self).remaining().len() as int,
                    )
                    &&& final(old(self).span())@ == final(frame.span())@
                        + final(final(self).span())@
                },
                None => {
                    &&& old(self).remaining().len() == 0
                    &&& old(self).frames_left() == 0
                    &&& final(self).remaining() == old(self).remaining()
                    &&& final(final(self).span())@ == final(old(self).span())@
                },
            },
    {
        proof {
            lemma_frame_width_positive(S::spec_format(), self.channels());
            lemma_whole_samples(0, self.frame_width());
        }
        let empty = match &self.rest {
            Some(rest) => rest.len() == 0,
            None => true,
        };
        if empty {
            return None;
        }
        let width = S::format().size_in_bytes();
        proof {
            lemma_frame_width_positive(S::spec_format(), self.channels());
            lemma_first_item_fits(self.frame_width(), self.remaining().len());
            lemma_whole_samples(self.channels(), width as nat);
            assert(width * self.channels == self.channels * width) by (nonlinear_arith);
        }
        let rest = self.rest.take().unwrap();
        let (head, tail) = rest.split_at_mut(width * self.channels);
        self.rest = Some(tail);
        Some(SamplesMut { data: head, marker: PhantomData })
    }
}

} // verus!
