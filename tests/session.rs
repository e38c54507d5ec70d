use rscam::camera::{tune_format, tune_stream, Camera, Config, StartAnswer, StartPhase, StartRequest, State};
use rscam::error::EIO;
use rscam::consts::{FIELD_INTERLACED, FIELD_NONE};
use rscam::enumerate::FormatInfo;
use rscam::v4l2::{Buffer, Format, Fract, Timeval, BUF_TYPE_VIDEO_CAPTURE, MEMORY_MMAP};
use rscam::Error;

/// A device with one mode, which it reports whatever it is asked.
struct Device {
    resolution: (u32, u32),
    format: [u8; 4],
    field: u32,
    interval: (u32, u32),
    length: u32,
    mapped: Vec<(u32, u32, u64)>,
    queued: Vec<u32>,
    streaming: bool,
    fail_stream_on: bool,
}

impl Device {
    fn new() -> Device {
        Device {
            resolution: (640, 480),
            format: *b"YUYV",
            field: FIELD_NONE,
            interval: (1, 30),
            length: 614400,
            mapped: vec![],
            queued: vec![],
            streaming: false,
            fail_stream_on: false,
        }
    }

    fn answer(&mut self, request: StartRequest) -> Result<StartAnswer, i32> {
        match request {
            StartRequest::SetFormat(mut f) => {
                f.fmt.width = self.resolution.0;
                f.fmt.height = self.resolution.1;
                f.fmt.pixelformat = FormatInfo::fourcc(&self.format);
                f.fmt.field = self.field;
                Ok(StartAnswer::Format(f))
            }
            StartRequest::SetParm(mut p) => {
                p.parm.timeperframe = Fract { numerator: self.interval.0, denominator: self.interval.1 };
                Ok(StartAnswer::Parm(p))
            }
            StartRequest::Reserve(r) => {
                assert_eq!(r.memory, MEMORY_MMAP);
                Ok(StartAnswer::Done)
            }
            StartRequest::Query(mut b) => {
                b.length = self.length;
                b.m = b.index as u64 * 1048576;
                Ok(StartAnswer::Buffer(b))
            }
            StartRequest::MapBuffer { index, length, offset } => {
                self.mapped.push((index, length, offset));
                Ok(StartAnswer::Done)
            }
            StartRequest::Enqueue(b) => {
                self.queued.push(b.index);
                Ok(StartAnswer::Done)
            }
            StartRequest::StreamOn => {
                if self.fail_stream_on {
                    Err(5)
                } else {
                    self.streaming = true;
                    Ok(StartAnswer::Done)
                }
            }
        }
    }
}

fn start(camera: &mut Camera, device: &mut Device, config: &Config) -> Result<(), Error> {
    let mut run = camera.start(config)?;
    loop {
        match run.phase() {
            StartPhase::Done | StartPhase::Failed(_) => break,
            _ => {}
        }
        let reply = device.answer(run.request());
        run.answer(reply);
    }
    camera.complete_start(run)
}

fn config(resolution: (u32, u32)) -> Config<'static> {
    Config { interval: (1, 30), resolution, format: b"YUYV", field: FIELD_NONE, nbuffers: 2 }
}

#[test]
fn start_capture_stop_on_one_mode_device() {
    let mut device = Device::new();
    let mut camera = Camera::new();
    assert_eq!(camera.state(), State::Idle);
    assert_eq!(camera.buffer_count(), 0);
    assert_eq!(start(&mut camera, &mut device, &config((640, 480))), Ok(()));
    assert_eq!(camera.state(), State::Streaming);
    assert_eq!(camera.buffer_count(), 2);
    assert_eq!(device.mapped, vec![(0, 614400, 0), (1, 614400, 1048576)]);
    assert_eq!(device.queued, vec![0, 1]);
    assert!(device.streaming);

    let request = camera.capture();
    assert_eq!(request.btype, BUF_TYPE_VIDEO_CAPTURE);
    let mut filled = Buffer::with_index(1);
    filled.bytesused = 614400;
    let frame = camera.frame(Ok(filled)).unwrap();
    assert_eq!(frame.resolution, (640, 480));
    assert_eq!(&frame.format, b"YUYV");
    assert_eq!(frame.len(), 614400);
    assert_eq!(frame.index(), 1);
    assert_eq!(frame.ticket().index, 1);

    assert_eq!(camera.stop(Ok(())), Ok(()));
    assert_eq!(camera.state(), State::Aborted);
    assert_eq!(camera.buffer_count(), 0);
}

#[test]
fn clamped_resolution_is_refused() {
    let mut device = Device::new();
    let mut camera = Camera::new();
    assert_eq!(start(&mut camera, &mut device, &config((999, 999))), Err(Error::BadResolution));
    assert_eq!(camera.state(), State::Idle);
    assert_eq!(camera.buffer_count(), 0);
    assert!(device.mapped.is_empty());
}

#[test]
fn start_then_stop_leaves_nothing() {
    let mut device = Device::new();
    let mut camera = Camera::new();
    start(&mut camera, &mut device, &config((640, 480))).unwrap();
    camera.stop(Ok(())).unwrap();
    assert_eq!(camera.state(), State::Aborted);
    assert_eq!(camera.buffer_count(), 0);
    // `start` asks for an idle session: a stopped one is not.
    assert_ne!(camera.state(), State::Idle);
}

#[test]
fn failed_stop_keeps_streaming() {
    let mut device = Device::new();
    let mut camera = Camera::new();
    start(&mut camera, &mut device, &config((640, 480))).unwrap();
    assert_eq!(camera.stop(Err(19)), Err(Error::Io(19)));
    assert_eq!(camera.state(), State::Streaming);
    assert_eq!(camera.buffer_count(), 2);
}

#[test]
fn failed_stream_on_releases_the_pool() {
    let mut device = Device::new();
    device.fail_stream_on = true;
    let mut camera = Camera::new();
    assert_eq!(start(&mut camera, &mut device, &config((640, 480))), Err(Error::Io(5)));
    assert_eq!(camera.state(), State::Idle);
    assert_eq!(camera.buffer_count(), 0);
}

#[test]
fn other_format_field_and_interval_are_refused() {
    let mut device = Device::new();
    device.format = *b"MJPG";
    let mut camera = Camera::new();
    assert_eq!(start(&mut camera, &mut device, &config((640, 480))), Err(Error::BadFormat));

    let mut device = Device::new();
    device.field = FIELD_INTERLACED;
    assert_eq!(start(&mut camera, &mut device, &config((640, 480))), Err(Error::BadField));

    let mut device = Device::new();
    device.interval = (1, 25);
    assert_eq!(start(&mut camera, &mut device, &config((640, 480))), Err(Error::BadInterval));
    assert_eq!(camera.state(), State::Idle);
}

#[test]
fn format_name_of_other_length_is_refused() {
    let camera = Camera::new();
    let config = Config { format: b"YUY", ..Config::default() };
    assert!(matches!(camera.start(&config), Err(Error::BadFormat)));
}

#[test]
fn default_config() {
    let config = Config::default();
    assert_eq!(config.interval, (1, 10));
    assert_eq!(config.resolution, (640, 480));
    assert_eq!(config.format, b"YUYV");
    assert_eq!(config.field, FIELD_NONE);
    assert_eq!(config.nbuffers, 2);
}

#[test]
fn interval_is_compared_by_cross_multiplication() {
    let ask = (1, 30);
    assert_eq!(tune_stream(ask, Fract { numerator: 1, denominator: 30 }), Ok(()));
    assert_eq!(tune_stream(ask, Fract { numerator: 2, denominator: 60 }), Ok(()));
    assert_eq!(tune_stream(ask, Fract { numerator: 1, denominator: 25 }), Err(Error::BadInterval));
    assert_eq!(tune_stream(ask, Fract { numerator: 0, denominator: 0 }), Err(Error::BadInterval));
    assert_eq!(tune_stream((0, 1), Fract { numerator: 0, denominator: 1 }), Err(Error::BadInterval));
    // Products past 32 bits are compared exactly.
    assert_eq!(
        tune_stream((65536, 65537), Fract { numerator: 65536, denominator: 65537 }),
        Ok(())
    );
}

#[test]
fn format_echo_is_checked_field_by_field() {
    let fourcc = FormatInfo::fourcc(b"YUYV");
    let echo = Format::new((640, 480), fourcc, FIELD_NONE);
    assert_eq!(tune_format((640, 480), fourcc, FIELD_NONE, &echo), Ok(()));
    assert_eq!(tune_format((640, 481), fourcc, FIELD_NONE, &echo), Err(Error::BadResolution));
    assert_eq!(tune_format((640, 480), fourcc + 1, FIELD_NONE, &echo), Err(Error::BadFormat));
    assert_eq!(tune_format((640, 480), fourcc, FIELD_INTERLACED, &echo), Err(Error::BadField));
}

#[test]
fn frame_longer_than_its_buffer_is_refused() {
    let mut device = Device::new();
    device.length = 100;
    let mut camera = Camera::new();
    start(&mut camera, &mut device, &config((640, 480))).unwrap();
    let mut filled = Buffer::with_index(0);
    filled.bytesused = 101;
    assert!(matches!(camera.frame(Ok(filled)), Err(Error::Io(EIO))));
    filled.bytesused = 100;
    assert_eq!(camera.frame(Ok(filled)).unwrap().len(), 100);
    assert!(matches!(camera.frame(Err(4)), Err(Error::Io(4))));
    // A buffer outside the pool.
    let outside = Buffer::with_index(2);
    assert!(matches!(camera.frame(Ok(outside)), Err(Error::Io(EIO))));
}

#[test]
fn frame_timestamp_in_microseconds() {
    let mut device = Device::new();
    let mut camera = Camera::new();
    start(&mut camera, &mut device, &config((640, 480))).unwrap();
    let mut filled = Buffer::with_index(0);
    filled.bytesused = 10;
    filled.timestamp = Timeval { tv_sec: 3, tv_usec: 250 };
    assert_eq!(camera.frame(Ok(filled)).unwrap().get_timestamp(), 3_000_250);
}

#[test]
fn error_descriptions() {
    assert_eq!(Error::BadInterval.description(), "bad interval");
    assert_eq!(Error::BadResolution.description(), "bad resolution");
    assert_eq!(Error::BadFormat.description(), "bad format");
    assert_eq!(Error::BadField.description(), "bad field");
    assert_eq!(Error::Io(2).description(), "I/O error");
}

#[test]
fn pool_of_no_buffers_is_refused() {
    let camera = Camera::new();
    let config = Config { nbuffers: 0, ..Config::default() };
    assert!(matches!(camera.start(&config), Err(Error::Io(22))));
}
