//! The mirroring receiver's bookkeeping: whether it listens, whether a
//! stream runs, and the status a user interface shows. Capturing and
//! encoding frames is not part of this library.

use vstd::prelude::*;
use vstd::string::StringExecFns;
use crate::utils::error::AirWinError;
use crate::utils::text::{decimal_text, u64_to_decimal};

verus! {

/// The port a mirroring receiver listens on.
pub const AIRPLAY_PORT: u16 = 7100;

/// Seconds a peer is waited for before the attempt is given up.
pub const CONNECT_TIMEOUT_SECS: u64 = 15;

/// The frame rate a receiver starts with.
pub const DEFAULT_FPS: u32 = 60;

/// The status of the mirroring receiver.
#[derive(Debug)]
pub enum AirPlayStatus {
    Idle,
    Connecting,
    Connected,
    Failed(String),
}

/// A mirroring status as a plain value.
pub enum AirPlayView {
    Idle,
    Connecting,
    Connected,
    Failed(Seq<char>),
}

impl View for AirPlayStatus {
    type V = AirPlayView;

    open spec fn view(&self) -> AirPlayView {
        match self {
            AirPlayStatus::Idle => AirPlayView::Idle,
            AirPlayStatus::Connecting => AirPlayView::Connecting,
            AirPlayStatus::Connected => AirPlayView::Connected,
            AirPlayStatus::Failed(reason) => AirPlayView::Failed(reason@),
        }
    }
}

impl Clone for AirPlayStatus {
    fn clone(&self) -> (copy: Self)
        ensures
            copy == *self,
    {
        match self {
            AirPlayStatus::Idle => AirPlayStatus::Idle,
            AirPlayStatus::Connecting => AirPlayStatus::Connecting,
            AirPlayStatus::Connected => AirPlayStatus::Connected,
            AirPlayStatus::Failed(reason) => AirPlayStatus::Failed(reason.clone()),
        }
    }
}

/// One captured frame. The time is in seconds since the Unix epoch.
#[derive(Debug)]
pub struct ScreenFrame {
    pub data: Vec<u8>,
    pub width: u32,
    pub height: u32,
    pub timestamp: u64,
}

/// The line that precedes a frame's bytes on the wire: width, `x`,
/// height, `@`, the time, and a line feed.
pub open spec fn frame_header_text(width: u32, height: u32, timestamp: u64) -> Seq<char> {
    decimal_text(width as nat) + "x"@ + decimal_text(height as nat) + "@"@ + decimal_text(
        timestamp as nat,
    ) + "\n"@
}

impl ScreenFrame {
    /// The line that precedes this frame's bytes on the wire.
    pub fn header(&self) -> (line: String)
        ensures
            line@ == frame_header_text(self.width, self.height, self.timestamp),
    {
        let mut line = u64_to_decimal(self.width as u64);
        line.append("x");
        line.append(u64_to_decimal(self.height as u64).as_str());
        line.append("@");
        line.append(u64_to_decimal(self.timestamp).as_str());
        line.append("\n");
        line
    }

    /// Width, height and time of the frame.
    pub fn info(&self) -> (info: (u32, u32, u64))
        ensures
            info == (self.width, self.height, self.timestamp),
    {
        (self.width, self.height, self.timestamp)
    }
}

/// What came of waiting for a peer's stream.
#[derive(Debug)]
pub enum StreamOutcome {
    /// A peer connected.
    Accepted,
    /// Accepting failed, for the given reason.
    Failed(String),
    /// No peer connected in time.
    TimedOut,
}

/// The mirroring receiver.
#[derive(Debug)]
pub struct AirPlay {
    listening: bool,
    receiving: bool,
    fps: u32,
    current_frame: Option<ScreenFrame>,
    status: AirPlayStatus,
}

impl AirPlay {
    /// Whether the listener is bound.
    pub closed spec fn is_listening(&self) -> bool {
        self.listening
    }

    /// Whether a stream runs.
    pub closed spec fn is_receiving(&self) -> bool {
        self.receiving
    }

    pub closed spec fn state(&self) -> AirPlayView {
        self.status@
    }

    /// The frame captured last, while a stream runs.
    pub closed spec fn frame(&self) -> Option<ScreenFrame> {
        self.current_frame
    }

    pub closed spec fn spec_fps(&self) -> u32 {
        self.fps
    }

    pub fn new() -> (receiver: Self)
        ensures
            !receiver.is_listening(),
            !receiver.is_receiving(),
            receiver.state() == AirPlayView::Idle,
            receiver.frame() is None,
            receiver.spec_fps() == DEFAULT_FPS,
    {
        AirPlay {
            listening: false,
            receiving: false,
            fps: DEFAULT_FPS,
            current_frame: None,
            status: AirPlayStatus::Idle,
        }
    }

    /// Whether a stream runs.
    pub fn receiving(&self) -> (receiving: bool)
        ensures
            receiving == self.is_receiving(),
    {
        self.receiving
    }

    /// The frame rate.
    pub fn fps(&self) -> (fps: u32)
        ensures
            fps == self.spec_fps(),
    {
        self.fps
    }

    pub fn get_status(&self) -> (status: AirPlayStatus)
        ensures
            status@ == self.state(),
    {
        self.status.clone()
    }

    /// Whether a listener is to be bound: not when one is bound already.
    pub fn start_server(&self) -> (bind: bool)
        ensures
            bind == !self.is_listening(),
    {
        !self.listening
    }

    /// Takes the outcome of binding the listener.
    pub fn server_bound(&mut self, outcome: Result<(), String>) -> (result: Result<(), AirWinError>)
        ensures
            final(self).is_receiving() == old(self).is_receiving(),
            final(self).state() == old(self).state(),
            final(self).frame() == old(self).frame(),
            final(self).spec_fps() == old(self).spec_fps(),
            match outcome {
                Ok(_) => result is Ok && final(self).is_listening(),
                Err(_) => (result matches Err(AirWinError::NetworkError(m)) && m@
                    == "Failed to start AirPlay server. Try running as administrator or check firewall settings."@)
                    && final(self).is_listening() == old(self).is_listening(),
            },
    {
        match outcome {
            Ok(_) => {
                self.listening = true;
                Ok(())
            },
            Err(_) => Err(
                AirWinError::NetworkError(
                    "Failed to start AirPlay server. Try running as administrator or check firewall settings.".to_string(),
                ),
            ),
        }
    }

    /// Begins receiving. While a stream runs this fails and the status
    /// says so. Otherwise the status is `Connecting`, and the answer says
    /// whether the listener is yet to be bound.
    pub fn start_receiving(&mut self) -> (result: Result<bool, AirWinError>)
        ensures
            final(self).is_listening() == old(self).is_listening(),
            final(self).is_receiving() == old(self).is_receiving(),
            final(self).frame() == old(self).frame(),
            final(self).spec_fps() == old(self).spec_fps(),
            old(self).is_receiving() ==> (result matches Err(AirWinError::Other(m)) && m@
                == "A stream is already in progress"@) && final(self).state()
                == AirPlayView::Failed("Already receiving a stream"@),
            !old(self).is_receiving() ==> result == Ok::<bool, AirWinError>(
                !old(self).is_listening(),
            ) && final(self).state() == AirPlayView::Connecting,
    {
        if self.receiving {
            self.status = AirPlayStatus::Failed("Already receiving a stream".to_string());
            return Err(AirWinError::Other("A stream is already in progress".to_string()));
        }
        self.status = AirPlayStatus::Connecting;
        Ok(!self.listening)
    }

    /// The listener could not be bound for a stream: the status says so.
    pub fn server_failed(&mut self, why: &str) -> (error: AirWinError)
        ensures
            final(self).is_listening() == old(self).is_listening(),
            final(self).is_receiving() == old(self).is_receiving(),
            final(self).frame() == old(self).frame(),
            final(self).spec_fps() == old(self).spec_fps(),
            final(self).state() == AirPlayView::Failed(
                "Failed to start server. Please check your network settings: "@ + why@,
            ),
            error matches AirWinError::NetworkError(m) && m@
                == "Failed to start server. Please check your network settings: "@ + why@,
    {
        let message = "Failed to start server. Please check your network settings: ".to_string().concat(
            why,
        );
        self.status = AirPlayStatus::Failed(message.clone());
        AirWinError::NetworkError(message)
    }

    /// Takes the outcome of waiting for a peer's stream: with a peer the
    /// stream runs and the status is `Connected`; without one the status
    /// is `Failed`, a timeout being a temporary error.
    pub fn stream_ready(&mut self, outcome: StreamOutcome) -> (result: Result<(), AirWinError>)
        ensures
            final(self).is_listening() == old(self).is_listening(),
            final(self).frame() == old(self).frame(),
            final(self).spec_fps() == old(self).spec_fps(),
            match outcome {
                StreamOutcome::Accepted => result is Ok && final(self).is_receiving() && final(self).state() == AirPlayView::Connected,
                StreamOutcome::Failed(why) => (result matches Err(AirWinError::NetworkError(m))
                    && m@ == "Failed to setup stream: "@ + why@) && !final(self).is_receiving()
                    && final(self).state() == AirPlayView::Failed(
                    "Failed to setup stream: "@ + why@,
                ),
                StreamOutcome::TimedOut => result matches Err(AirWinError::ConnectionTimeout)
                    && !final(self).is_receiving() && final(self).state() == AirPlayView::Failed(
                    "Connection timeout after 15 seconds"@,
                ),
            },
    {
        match outcome {
            StreamOutcome::Accepted => {
                self.receiving = true;
                self.status = AirPlayStatus::Connected;
                Ok(())
            },
            StreamOutcome::Failed(why) => {
                self.receiving = false;
                let message = "Failed to setup stream: ".to_string().concat(why.as_str());
                self.status = AirPlayStatus::Failed(message.clone());
                Err(AirWinError::NetworkError(message))
            },
            StreamOutcome::TimedOut => {
                self.receiving = false;
                self.status = AirPlayStatus::Failed(
                    "Connection timeout after 15 seconds".to_string(),
                );
                Err(AirWinError::ConnectionTimeout)
            },
        }
    }

    /// Takes a captured frame as the current one.
    pub fn frame_captured(&mut self, frame: ScreenFrame)
        ensures
            final(self).frame() == Some(frame),
            final(self).is_listening() == old(self).is_listening(),
            final(self).is_receiving() == old(self).is_receiving(),
            final(self).state() == old(self).state(),
            final(self).spec_fps() == old(self).spec_fps(),
    {
        self.current_frame = Some(frame);
    }

    /// Capturing failed: the stream ends and the status says why.
    pub fn capture_failed(&mut self, why: &str)
        ensures
            !final(self).is_receiving(),
            final(self).state() == AirPlayView::Failed("Capture error: "@ + why@),
            final(self).is_listening() == old(self).is_listening(),
            final(self).frame() == old(self).frame(),
            final(self).spec_fps() == old(self).spec_fps(),
    {
        self.receiving = false;
        self.status = AirPlayStatus::Failed("Capture error: ".to_string().concat(why));
    }

    /// Stops receiving: the stream ends, the current frame is dropped
    /// and the status is `Idle`.
    pub fn stop_receiving(&mut self) -> (result: Result<(), AirWinError>)
        ensures
            result is Ok,
            !final(self).is_receiving(),
            final(self).frame() is None,
            final(self).state() == AirPlayView::Idle,
            final(self).is_listening() == old(self).is_listening(),
            final(self).spec_fps() == old(self).spec_fps(),
    {
        self.receiving = false;
        self.current_frame = None;
        self.status = AirPlayStatus::Idle;
        Ok(())
    }

    /// A copy of the current frame.
    pub fn get_current_frame(&self) -> (frame: Option<ScreenFrame>)
        ensures
            match (frame, self.frame()) {
                (Some(copy), Some(current)) => copy.data@ == current.data@ && copy.width
                    == current.width && copy.height == current.height && copy.timestamp
                    == current.timestamp,
                (None, None) => true,
                _ => false,
            },
    {
        match &self.current_frame {
            Some(current) => {
                let len: usize = current.data.len();
                let data = crate::utils::bytes::copy_range(current.data.as_slice(), 0, len);
                assert(data@ =~= current.data@);
                Some(
                    ScreenFrame {
                        data,
                        width: current.width,
                        height: current.height,
                        timestamp: current.timestamp,
                    },
                )
            },
            None => None,
        }
    }

    /// Width, height and time of the current frame.
    pub fn get_frame_info(&self) -> (info: Option<(u32, u32, u64)>)
        ensures
            info == match self.frame() {
                Some(frame) => Some((frame.width, frame.height, frame.timestamp)),
                None => None,
            },
    {
        match &self.current_frame {
            Some(frame) => Some(frame.info()),
            None => None,
        }
    }

    /// Milliseconds between two frames at the receiver's frame rate,
    /// rounded down.
    pub fn frame_interval_ms(&self) -> (ms: u64)
        requires
            self.spec_fps() > 0,
        ensures
            ms == 1000int / (self.spec_fps() as int),
    {
        1000u64 / (self.fps as u64)
    }
}

} // verus!
