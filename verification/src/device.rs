use crate::format::Format;
use crate::frames::frame_width;
use crate::frames::lemma_whole_frames;
use crate::frames::Frames;
use crate::frames::FramesMut;
use crate::frames::FramesView;
use crate::miniaudio_error::MiniaudioError;
use vstd::prelude::*;

verus! {

/// Why an operation on a device did not succeed.
#[derive(Debug, Clone, Copy, PartialEq, Eq, Structural)]
pub enum Error {
    /// The backend reported a fault.
    MiniaudioError(MiniaudioError),
    /// The configuration names no format, no channel, no rate or no period,
    /// or a count that the backend cannot hold.
    InvalidConfig,
    /// The device is started, and was asked to start.
    AlreadyStarted,
    /// The device is not started, and was asked to stop.
    NotStarted,
    /// The device has been torn down.
    Destroyed,
    /// A fault inside a period has made the device unusable.
    Poisoned,
}

impl From<MiniaudioError> for Error {
    fn from(fault: MiniaudioError) -> (error: Error) {
        Error::MiniaudioError(fault)
    }
}

impl vstd::std_specs::convert::FromSpecImpl<MiniaudioError> for Error {
    open spec fn obeys_from_spec() -> bool {
        true
    }

    open spec fn from_spec(fault: MiniaudioError) -> Error {
        Error::MiniaudioError(fault)
    }
}

/// What a device does with frames.
#[derive(Debug, Clone, Copy, PartialEq, Eq, Structural)]
pub enum DeviceType {
    Playback,
    Capture,
    Duplex,
    Loopback,
}

/// Where a device stands in its life. A device that has not been opened yet
/// is a `DeviceConfig`.
#[derive(Debug, Clone, Copy, PartialEq, Eq, Structural)]
pub enum DeviceState {
    /// The backend holds a handle for the device; it has not been started.
    Initialized,
    /// The backend may call for a period at any time.
    Started,
    /// The backend holds the handle and calls for no period.
    Stopped,
    /// The handle has been released.
    Destroyed,
}

/// The largest count that the backend can hold.
pub open spec fn backend_limit() -> nat {
    u32::MAX as nat
}

/// What a device is made for: its kind, the format, channel count and rate
/// of its frames, and the number of frames of one period.
#[derive(Debug, Clone, Copy, PartialEq, Eq, Structural)]
pub struct DeviceInfo {
    pub device_type: DeviceType,
    pub format: Format,
    pub channels: usize,
    pub sample_rate: usize,
    pub frame_count: usize,
}

impl DeviceInfo {
    /// Whether the backend can be asked for a device of this description.
    pub open spec fn valid(self) -> bool {
        &&& self.format != Format::Unknown
        &&& 0 < self.channels <= backend_limit()
        &&& 0 < self.sample_rate <= backend_limit()
        &&& 0 < self.frame_count <= backend_limit()
    }

    /// The number of bytes of `frame_count` frames of this device.
    pub open spec fn byte_count(self, frame_count: nat) -> nat {
        frame_width(self.format, self.channels as nat) * frame_count
    }

    /// Decides whether the backend is to be asked for a device of this
    /// description.
    pub fn validate(&self) -> (result: Result<(), Error>)
        ensures
            result == if self.valid() {
                Ok::<(), Error>(())
            } else {
                Err(Error::InvalidConfig)
            },
    {
        let limit: usize = 0xffff_ffff;
        if self.format == Format::Unknown || self.channels == 0 || self.channels > limit
            || self.sample_rate == 0 || self.sample_rate > limit || self.frame_count == 0
            || self.frame_count > limit {
            Err(Error::InvalidConfig)
        } else {
            Ok(())
        }
    }

    /// The number of bytes that `frame_count` frames of this device occupy,
    /// unless the machine cannot hold that number.
    pub fn period_byte_count(&self, frame_count: u32) -> (count: Option<usize>)
        ensures
            match count {
                Some(bytes) => bytes == self.byte_count(frame_count as nat),
                None => self.byte_count(frame_count as nat) > usize::MAX,
            },
    {
        let width = self.format.size_in_bytes();
        let frame_bytes = match width.checked_mul(self.channels) {
            Some(frame_bytes) => frame_bytes,
            None => {
                proof {
                    lemma_product_grows(
                        frame_width(self.format, self.channels as nat),
                        frame_count as nat,
                    );
                }
                if frame_count == 0 {
                    return Some(0);
                }
                return None;
            },
        };
        if frame_count == 0 {
            proof {
                lemma_product_grows(frame_bytes as nat, 0);
            }
            return Some(0);
        }
        frame_bytes.checked_mul(frame_count as usize)
    }
}

/// A product with zero is zero, and a product with a count that is not zero
/// is no less than the other factor.
proof fn lemma_product_grows(a: nat, b: nat)
    ensures
        b == 0 ==> a * b == 0,
        b > 0 ==> a * b >= a,
{
    assert(b == 0 ==> a * b == 0) by (nonlinear_arith);
    assert(b > 0 ==> a * b >= a) by (nonlinear_arith);
}

/// The configuration of a device that has not been opened yet, with the
/// payload that its callback will be handed.
#[derive(Debug)]
pub struct DeviceConfig<U> {
    info: DeviceInfo,
    user_data: Option<U>,
}

/// What a device configuration holds.
pub struct DeviceConfigView<U> {
    pub info: DeviceInfo,
    pub user_data: Option<U>,
}

impl<U> View for DeviceConfig<U> {
    type V = DeviceConfigView<U>;

    closed spec fn view(&self) -> DeviceConfigView<U> {
        DeviceConfigView { info: self.info, user_data: self.user_data }
    }
}

impl<U> DeviceConfig<U> {
    pub fn new(
        device_type: DeviceType,
        format: Format,
        channels: usize,
        sample_rate: usize,
        frame_count: usize,
        user_data: Option<U>,
    ) -> (config: DeviceConfig<U>)
        ensures
            config@ == (DeviceConfigView {
                info: DeviceInfo { device_type, format, channels, sample_rate, frame_count },
                user_data,
            }),
    {
        DeviceConfig {
            info: DeviceInfo { device_type, format, channels, sample_rate, frame_count },
            user_data,
        }
    }

    pub fn info(&self) -> (info: DeviceInfo)
        ensures
            info == self@.info,
    {
        self.info
    }

    pub fn device_type(&self) -> (device_type: DeviceType)
        ensures
            device_type == self@.info.device_type,
    {
        self.info.device_type
    }

    pub fn set_device_type(&mut self, device_type: DeviceType)
        ensures
            final(self)@ == (DeviceConfigView {
                info: DeviceInfo { device_type, ..old(self)@.info },
                ..old(self)@
            }),
    {
        self.info.device_type = device_type;
    }

    pub fn format(&self) -> (format: Format)
        ensures
            format == self@.info.format,
    {
        self.info.format
    }

    pub fn set_format(&mut self, format: Format)
        ensures
            final(self)@ == (DeviceConfigView {
                info: DeviceInfo { format, ..old(self)@.info },
                ..old(self)@
            }),
    {
        self.info.format = format;
    }

    pub fn channels(&self) -> (channels: usize)
        ensures
            channels == self@.info.channels,
    {
        self.info.channels
    }

    pub fn set_channels(&mut self, channels: usize)
        ensures
            final(self)@ == (DeviceConfigView {
                info: DeviceInfo { channels, ..old(self)@.info },
                ..old(self)@
            }),
    {
        self.info.channels = channels;
    }

    pub fn sample_rate(&self) -> (sample_rate: usize)
        ensures
            sample_rate == self@.info.sample_rate,
    {
        self.info.sample_rate
    }

    pub fn set_sample_rate(&mut self, sample_rate: usize)
        ensures
            final(self)@ == (DeviceConfigView {
                info: DeviceInfo { sample_rate, ..old(self)@.info },
                ..old(self)@
            }),
    {
        self.info.sample_rate = sample_rate;
    }

    pub fn frame_count(&self) -> (frame_count: usize)
        ensures
            frame_count == self@.info.frame_count,
    {
        self.info.frame_count
    }

    pub fn set_frame_count(&mut self, frame_count: usize)
        ensures
            final(self)@ == (DeviceConfigView {
                info: DeviceInfo { frame_count, ..old(self)@.info },
                ..old(self)@
            }),
    {
        self.info.frame_count = frame_count;
    }

    pub fn user_data(&self) -> (user_data: Option<&U>)
        ensures
            match user_data {
                Some(payload) => self@.user_data == Some(*payload),
                None => self@.user_data is None,
            },
    {
        self.user_data.as_ref()
    }

    pub fn set_user_data(&mut self, user_data: Option<U>)
        ensures
            final(self)@ == (DeviceConfigView { user_data, ..old(self)@ }),
    {
        self.user_data = user_data;
    }
}

/// What a device calls for each period: the logic of the device's user.
///
/// Every function or closure that takes a device's description, a borrow of
/// its payload, an input view and an output view is such a callback.
pub trait DataCallback<U> {
    /// Whether the callback can be called with these arguments.
    spec fn accepts(
        &self,
        info: DeviceInfo,
        payload: Option<&mut U>,
        input: Frames,
        output: FramesMut,
    ) -> bool;

    /// What a call with these arguments leaves behind: in the payload, and in
    /// the buffer behind the output view.
    spec fn effect(
        &self,
        info: DeviceInfo,
        payload: Option<&mut U>,
        input: Frames,
        output: FramesMut,
    ) -> bool;

    fn call(&self, info: &DeviceInfo, payload: Option<&mut U>, input: &Frames, output: FramesMut)
        requires
            self.accepts(*info, payload, *input, output),
        ensures
            self.effect(*info, payload, *input, output),
    ;
}

impl<U, F: Fn(&DeviceInfo, Option<&mut U>, &Frames, FramesMut)> DataCallback<U> for F {
    open spec fn accepts(
        &self,
        info: DeviceInfo,
        payload: Option<&mut U>,
        input: Frames,
        output: FramesMut,
    ) -> bool {
        call_requires(*self, (&info, payload, &input, output))
    }

    open spec fn effect(
        &self,
        info: DeviceInfo,
        payload: Option<&mut U>,
        input: Frames,
        output: FramesMut,
    ) -> bool {
        call_ensures(*self, (&info, payload, &input, output), ())
    }

    fn call(&self, info: &DeviceInfo, payload: Option<&mut U>, input: &Frames, output: FramesMut) {
        self(info, payload, input, output)
    }
}

/// For a function or closure, `accepts` and `effect` are what it requires and
/// what it ensures.
pub proof fn lemma_closure_is_callback<U, F: Fn(&DeviceInfo, Option<&mut U>, &Frames, FramesMut)>(
    callback: F,
    info: DeviceInfo,
    payload: Option<&mut U>,
    input: Frames,
    output: FramesMut,
)
    ensures
        callback.accepts(info, payload, input, output) == call_requires(
            callback,
            (&info, payload, &input, output),
        ),
        callback.effect(info, payload, input, output) == call_ensures(
            callback,
            (&info, payload, &input, output),
            (),
        ),
{
}

/// Whether `callback` can be called for a period of a device of `info`:
/// with any payload, an input view and an output view of the device's format
/// and channel count.
pub open spec fn accepts_periods<U, C: DataCallback<U>>(callback: C, info: DeviceInfo) -> bool {
    forall|payload: Option<&mut U>, input: Frames, output: FramesMut|
        {
            &&& input.well_formed()
            &&& input@.format == info.format
            &&& input@.channels == info.channels
            &&& output.well_formed()
            &&& output@.format == info.format
            &&& output@.channels == info.channels
        } ==> #[trigger] callback.accepts(info, payload, input, output)
}

/// What a device is: what it was made for, where it stands in its life,
/// whether a fault has made it unusable, and the callback and the payload
/// that it holds for the periods to come.
pub struct DeviceView<U, C> {
    pub info: DeviceInfo,
    pub state: DeviceState,
    pub poisoned: bool,
    pub data_callback: Option<C>,
    pub user_data: Option<U>,
}

impl<U, C: DataCallback<U>> DeviceView<U, C> {
    /// Every device was made for a valid description, and the callback that
    /// it holds can be called for its periods.
    pub open spec fn well_formed(self) -> bool {
        &&& self.info.valid()
        &&& self.data_callback matches Some(callback) ==> accepts_periods::<U, C>(
            callback,
            self.info,
        )
    }

    /// Whether a period that the backend calls for reaches the callback.
    pub open spec fn invokes(self) -> bool {
        &&& self.state == DeviceState::Started
        &&& !self.poisoned
        &&& self.data_callback is Some
    }

    /// Why the device cannot be started, if it cannot.
    pub open spec fn start_refusal(self) -> Option<Error> {
        match self.state {
            DeviceState::Destroyed => Some(Error::Destroyed),
            DeviceState::Started => Some(Error::AlreadyStarted),
            _ => if self.poisoned {
                Some(Error::Poisoned)
            } else {
                None
            },
        }
    }

    /// The device after `start` with `callback`.
    pub open spec fn after_start(self, callback: C, user_data: Option<U>) -> DeviceView<U, C> {
        if self.start_refusal() is None {
            DeviceView {
                state: DeviceState::Started,
                data_callback: Some(callback),
                user_data: if user_data is Some {
                    user_data
                } else {
                    self.user_data
                },
                ..self
            }
        } else {
            self
        }
    }

    /// The device after the backend has refused to start it.
    pub open spec fn after_start_failed(self) -> DeviceView<U, C> {
        if self.state == DeviceState::Started {
            DeviceView { state: DeviceState::Stopped, ..self }
        } else {
            self
        }
    }

    /// What `stop` returns.
    pub open spec fn stop_result(self) -> Result<(), Error> {
        match self.state {
            DeviceState::Destroyed => Err(Error::Destroyed),
            DeviceState::Started => if self.poisoned {
                Err(Error::Poisoned)
            } else {
                Ok(())
            },
            _ => Err(Error::NotStarted),
        }
    }

    /// The device after `stop`.
    pub open spec fn after_stop(self) -> DeviceView<U, C> {
        if self.state == DeviceState::Started {
            DeviceView { state: DeviceState::Stopped, ..self }
        } else {
            self
        }
    }

    /// The device after the backend has refused to stop it.
    pub open spec fn after_stop_failed(self) -> DeviceView<U, C> {
        if self.state == DeviceState::Stopped {
            DeviceView { state: DeviceState::Started, ..self }
        } else {
            self
        }
    }

    /// The device after a fault inside a period.
    pub open spec fn after_poison(self) -> DeviceView<U, C> {
        DeviceView { poisoned: true, ..self }
    }

    /// The device after `teardown`.
    pub open spec fn after_teardown(self) -> DeviceView<U, C> {
        DeviceView {
            state: DeviceState::Destroyed,
            data_callback: None,
            user_data: None,
            ..self
        }
    }
}

/// An audio device that the backend has opened. It holds the callback and
/// the payload for the periods that the backend calls for, and decides what
/// each request of its owner leads to.
pub struct Device<U, C> {
    info: DeviceInfo,
    state: DeviceState,
    poisoned: bool,
    data_callback: Option<C>,
    user_data: Option<U>,
}

impl<U, C> View for Device<U, C> {
    type V = DeviceView<U, C>;

    closed spec fn view(&self) -> DeviceView<U, C> {
        DeviceView {
            info: self.info,
            state: self.state,
            poisoned: self.poisoned,
            data_callback: self.data_callback,
            user_data: self.user_data,
        }
    }
}

impl<U, C: DataCallback<U>> Device<U, C> {
    pub open spec fn well_formed(&self) -> bool {
        self@.well_formed()
    }

    /// What `new` returns for `config`, the backend having answered `opened`
    /// to the request to open the device. An invalid configuration is
    /// refused whatever the backend answered.
    pub open spec fn open_result(config: DeviceConfigView<U>, opened: Result<(), MiniaudioError>)
        -> Result<DeviceView<U, C>, Error> {
        if !config.info.valid() {
            Err(Error::InvalidConfig)
        } else {
            match opened {
                Err(fault) => Err(Error::MiniaudioError(fault)),
                Ok(()) => Ok(
                    DeviceView {
                        info: config.info,
                        state: DeviceState::Initialized,
                        poisoned: false,
                        data_callback: None,
                        user_data: config.user_data,
                    },
                ),
            }
        }
    }

    /// Makes the device that the backend was asked to open with `config`,
    /// from what the backend answered. The device takes the payload over.
    pub fn new(config: DeviceConfig<U>, opened: Result<(), MiniaudioError>) -> (result: Result<
        Self,
        Error,
    >)
        ensures
            match (result, Self::open_result(config@, opened)) {
                (Ok(device), Ok(view)) => device@ == view && device.well_formed(),
                (Err(error), Err(expected)) => error == expected,
                _ => false,
            },
    {
        if let Err(error) = config.info.validate() {
            return Err(error);
        }
        match opened {
            Err(fault) => Err(Error::MiniaudioError(fault)),
            Ok(()) => Ok(
                Device {
                    info: config.info,
                    state: DeviceState::Initialized,
                    poisoned: false,
                    data_callback: None,
                    user_data: config.user_data,
                },
            ),
        }
    }

    pub fn info(&self) -> (info: DeviceInfo)
        ensures
            info == self@.info,
    {
        self.info
    }

    pub fn device_type(&self) -> (device_type: DeviceType)
        ensures
            device_type == self@.info.device_type,
    {
        self.info.device_type
    }

    pub fn format(&self) -> (format: Format)
        ensures
            format == self@.info.format,
    {
        self.info.format
    }

    pub fn channels(&self) -> (channels: usize)
        ensures
            channels == self@.info.channels,
    {
        self.info.channels
    }

    pub fn sample_rate(&self) -> (sample_rate: usize)
        ensures
            sample_rate == self@.info.sample_rate,
    {
        self.info.sample_rate
    }

    pub fn frame_count(&self) -> (frame_count: usize)
        ensures
            frame_count == self@.info.frame_count,
    {
        self.info.frame_count
    }

    pub fn state(&self) -> (state: DeviceState)
        ensures
            state == self@.state,
    {
        self.state
    }

    pub fn is_poisoned(&self) -> (poisoned: bool)
        ensures
            poisoned == self@.poisoned,
    {
        self.poisoned
    }

    /// Whether a period that the backend calls for reaches the callback.
    pub fn invokes(&self) -> (invokes: bool)
        ensures
            invokes == self@.invokes(),
    {
        !self.poisoned && self.state == DeviceState::Started && self.data_callback.is_some()
    }

    pub fn user_data(&self) -> (user_data: Option<&U>)
        ensures
            match user_data {
                Some(payload) => self@.user_data == Some(*payload),
                None => self@.user_data is None,
            },
    {
        self.user_data.as_ref()
    }

    /// Installs `callback` for the periods to come, and `user_data` where one
    /// is given in place of the payload that the device holds, and marks the
    /// device started, after which the backend is to be armed.
    ///
    /// A device that is started refuses: to start it again is an error. So do
    /// a device that is torn down and one that is poisoned. A device that
    /// refuses is left as it is, and the callback and the payload are
    /// dropped.
    pub fn start(&mut self, callback: C, user_data: Option<U>) -> (result: Result<(), Error>)
        requires
            old(self).well_formed(),
            accepts_periods::<U, C>(callback, old(self)@.info),
        ensures
            result == match old(self)@.start_refusal() {
                Some(error) => Err::<(), Error>(error),
                None => Ok(()),
            },
            final(self)@ == old(self)@.after_start(callback, user_data),
            final(self).well_formed(),
    {
        match self.state {
            DeviceState::Destroyed => {
                return Err(Error::Destroyed);
            },
            DeviceState::Started => {
                return Err(Error::AlreadyStarted);
            },
            _ => {},
        }
        if self.poisoned {
            return Err(Error::Poisoned);
        }
        self.data_callback = Some(callback);
        if user_data.is_some() {
            self.user_data = user_data;
        }
        self.state = DeviceState::Started;
        Ok(())
    }

    /// Takes back a `start` that the backend refused with `fault`: the
    /// device is stopped. Returns the error to report.
    pub fn start_failed(&mut self, fault: MiniaudioError) -> (error: Error)
        requires
            old(self).well_formed(),
        ensures
            error == Error::MiniaudioError(fault),
            final(self)@ == old(self)@.after_start_failed(),
            final(self).well_formed(),
    {
        if self.state == DeviceState::Started {
            self.state = DeviceState::Stopped;
        }
        Error::MiniaudioError(fault)
    }

    /// Marks a started device stopped, after which the backend is to be
    /// disarmed: from now on no period reaches the callback. A fault inside
    /// an earlier period is reported here, and the device is stopped all the
    /// same.
    pub fn stop(&mut self) -> (result: Result<(), Error>)
        requires
            old(self).well_formed(),
        ensures
            result == old(self)@.stop_result(),
            final(self)@ == old(self)@.after_stop(),
            final(self).well_formed(),
            !final(self)@.invokes(),
    {
        match self.state {
            DeviceState::Destroyed => Err(Error::Destroyed),
            DeviceState::Started => {
                self.state = DeviceState::Stopped;
                if self.poisoned {
                    Err(Error::Poisoned)
                } else {
                    Ok(())
                }
            },
            _ => Err(Error::NotStarted),
        }
    }

    /// Takes back a `stop` that the backend refused with `fault`: the device
    /// is started still. Returns the error to report.
    pub fn stop_failed(&mut self, fault: MiniaudioError) -> (error: Error)
        requires
            old(self).well_formed(),
        ensures
            error == Error::MiniaudioError(fault),
            final(self)@ == old(self)@.after_stop_failed(),
            final(self).well_formed(),
    {
        if self.state == DeviceState::Stopped {
            self.state = DeviceState::Started;
        }
        Error::MiniaudioError(fault)
    }

    /// Records a fault inside a period: from now on no period reaches the
    /// callback, and `start` and `stop` report the fault.
    pub fn poison(&mut self)
        requires
            old(self).well_formed(),
        ensures
            final(self)@ == old(self)@.after_poison(),
            final(self).well_formed(),
            !final(self)@.invokes(),
    {
        self.poisoned = true;
    }

    /// Ends the life of the device: the callback and the payload are
    /// dropped. Returns whether the backend's handle is to be released now,
    /// which is so the first time only.
    pub fn teardown(&mut self) -> (release: bool)
        requires
            old(self).well_formed(),
        ensures
            release == (old(self)@.state != DeviceState::Destroyed),
            final(self)@ == old(self)@.after_teardown(),
            final(self).well_formed(),
            !final(self)@.invokes(),
    {
        let release = match self.state {
            DeviceState::Destroyed => false,
            _ => true,
        };
        self.state = DeviceState::Destroyed;
        self.data_callback = None;
        self.user_data = None;
        release
    }
}

/// The bytes of a buffer that the backend hands over, none where it hands
/// over no buffer.
pub open spec fn bytes_of(buffer: Option<Seq<u8>>) -> Seq<u8> {
    match buffer {
        Some(bytes) => bytes,
        None => Seq::empty(),
    }
}

/// Whether each buffer that the backend hands over for a period of
/// `frame_count` frames holds exactly that many frames of the device.
pub open spec fn buffers_fit(
    info: DeviceInfo,
    input: Option<Seq<u8>>,
    output: Option<Seq<u8>>,
    frame_count: nat,
) -> bool {
    &&& input matches Some(bytes) ==> bytes.len() == info.byte_count(frame_count)
    &&& output matches Some(bytes) ==> bytes.len() == info.byte_count(frame_count)
}

/// The view of a period's buffer that the callback is handed.
pub open spec fn period_view(info: DeviceInfo, buffer: Option<Seq<u8>>) -> FramesView {
    FramesView { bytes: bytes_of(buffer), format: info.format, channels: info.channels as nat }
}

/// Serves one period that the backend calls for: `frame_count` frames to
/// take from `input`, where the device captures, and as many to leave in
/// `output`, where it plays.
///
/// A device that does not invoke leaves the period alone. Otherwise a
/// buffer that does not hold `frame_count` frames poisons the device, and the
/// callback is not called. Otherwise the callback is called once, with the
/// device's description, a borrow of its payload, and views of the two
/// buffers, empty where the backend handed none over.
pub fn device_data_callback<U, C: DataCallback<U>>(
    device: &mut Device<U, C>,
    output: Option<&mut [u8]>,
    input: Option<&[u8]>,
    frame_count: u32,
)
    requires
        old(device).well_formed(),
    ensures
        final(device).well_formed(),
        final(device)@.info == old(device)@.info,
        final(device)@.state == old(device)@.state,
        final(device)@.data_callback == old(device)@.data_callback,
        !old(device)@.invokes() ==> {
            &&& final(device)@ == old(device)@
            &&& output matches Some(bytes) ==> final(bytes)@ == bytes@
        },
        old(device)@.invokes() && !buffers_fit(
            old(device)@.info,
            match input {
                Some(bytes) => Some(bytes@),
                None => None,
            },
            match output {
                Some(bytes) => Some(bytes@),
                None => None,
            },
            frame_count as nat,
        ) ==> {
            &&& final(device)@ == old(device)@.after_poison()
            &&& output matches Some(bytes) ==> final(bytes)@ == bytes@
        },
        old(device)@.invokes() && buffers_fit(
            old(device)@.info,
            match input {
                Some(bytes) => Some(bytes@),
                None => None,
            },
            match output {
                Some(bytes) => Some(bytes@),
                None => None,
            },
            frame_count as nat,
        ) ==> {
            &&& final(device)@.poisoned == old(device)@.poisoned
            &&& exists|payload: Option<&mut U>, input_view: Frames, output_view: FramesMut|
                {
                    &&& input_view@ == period_view(
                        old(device)@.info,
                        match input {
                            Some(bytes) => Some(bytes@),
                            None => None,
                        },
                    )
                    &&& output_view@ == period_view(
                        old(device)@.info,
                        match output {
                            Some(bytes) => Some(bytes@),
                            None => None,
                        },
                    )
                    &&& output matches Some(bytes) ==> final(output_view.span())@ == final(bytes)@
                    &&& match payload {
                        Some(borrowed) => {
                            &&& old(device)@.user_data == Some(*borrowed)
                            &&& final(device)@.user_data == Some(*final(borrowed))
                        },
                        None => {
                            &&& old(device)@.user_data is None
                            &&& final(device)@.user_data is None
                        },
                    }
                    &&& #[trigger] old(device)@.data_callback->0.effect(
                        old(device)@.info,
                        payload,
                        input_view,
                        output_view,
                    )
                }
        },
{
    if device.poisoned {
        return ;
    }
    match device.state {
        DeviceState::Started => {},
        _ => {
            return ;
        },
    }
    if device.data_callback.is_none() {
        return ;
    }
    let expected = device.info.period_byte_count(frame_count);
    let input_fits = match &input {
        Some(bytes) => expected == Some(bytes.len()),
        None => true,
    };
    let output_fits = match &output {
        Some(bytes) => expected == Some(bytes.len()),
        None => true,
    };
    if !input_fits || !output_fits {
        device.poisoned = true;
        return ;
    }
    let format = device.info.format;
    let channels = device.info.channels;
    proof {
        lemma_whole_frames(
            device.info.format,
            device.info.channels as nat,
            frame_count as nat,
            0,
        );
    }
    let no_input: Vec<u8> = Vec::new();
    let input_view = match input {
        Some(bytes) => Frames::wrap(bytes, format, channels),
        None => Frames::wrap(no_input.as_slice(), format, channels),
    };
    let mut no_output: Vec<u8> = Vec::new();
    let output_view = match output {
        Some(bytes) => FramesMut::wrap(bytes, format, channels),
        None => FramesMut::wrap(no_output.as_mut_slice(), format, channels),
    };
    let payload = device.user_data.as_mut();
    match &device.data_callback {
        Some(callback) => {
            callback.call(&device.info, payload, &input_view, output_view);
        },
        None => {},
    }
}

/// Tearing a device down twice is tearing it down once: the second call
/// releases nothing and changes nothing, and nothing is left to drop.
pub proof fn lemma_teardown_is_idempotent<U, C: DataCallback<U>>(device: DeviceView<U, C>)
    ensures
        device.after_teardown().state == DeviceState::Destroyed,
        device.after_teardown().user_data is None,
        device.after_teardown().data_callback is None,
        device.after_teardown().after_teardown() == device.after_teardown(),
{
}

/// A device that is neither started, torn down nor poisoned can be started
/// and stopped again: both succeed, and they leave the device stopped, with
/// the payload that it held or was given and without a fault, so that the
/// cycle can be run once more.
pub proof fn lemma_start_stop_cycle<U, C: DataCallback<U>>(
    device: DeviceView<U, C>,
    callback: C,
    user_data: Option<U>,
)
    requires
        device.state == DeviceState::Initialized || device.state == DeviceState::Stopped,
        !device.poisoned,
    ensures
        device.start_refusal() is None,
        device.after_start(callback, user_data).state == DeviceState::Started,
        device.after_start(callback, user_data).stop_result() is Ok,
        device.after_start(callback, user_data).after_stop() == (DeviceView {
            state: DeviceState::Stopped,
            data_callback: Some(callback),
            user_data: if user_data is Some {
                user_data
            } else {
                device.user_data
            },
            ..device
        }),
        device.after_start(callback, user_data).after_stop().start_refusal() is None,
{
}

/// A fault is for good: whatever is asked of a poisoned device, it stays
/// poisoned, it cannot be started, and no period reaches its callback.
pub proof fn lemma_poison_is_permanent<U, C: DataCallback<U>>(
    device: DeviceView<U, C>,
    callback: C,
    user_data: Option<U>,
)
    requires
        device.poisoned,
    ensures
        !device.invokes(),
        device.start_refusal() is Some,
        device.after_start(callback, user_data) == device,
        device.after_start_failed().poisoned && !device.after_start_failed().invokes(),
        device.after_stop().poisoned && !device.after_stop().invokes(),
        device.after_stop_failed().poisoned && !device.after_stop_failed().invokes(),
        device.after_poison() == device,
        device.after_teardown().poisoned && !device.after_teardown().invokes(),
{
}

} // verus!
