use rscam::enumerate::{buffer_to_string, FormatInfo, FormatIter, IntervalWalk, ResolutionWalk};
use rscam::error::{xioctl_valid, EINVAL};
use rscam::v4l2::{FmtDesc, Frmivalenum, Frmsizeenum, FMT_FLAG_COMPRESSED, FMT_FLAG_EMULATED};
use rscam::{Error, IntervalInfo, ResolutionInfo};

fn desc(index: u32, name: &[u8], flags: u32) -> FmtDesc {
    let mut d = FmtDesc::new(index);
    d.pixelformat = FormatInfo::fourcc(name);
    d.flags = flags;
    d.description[..name.len()].copy_from_slice(name);
    d
}

/// A device listing two formats.
fn answer_format(q: &FmtDesc) -> Result<FmtDesc, i32> {
    match q.index {
        0 => Ok(desc(0, b"YUYV", 0)),
        1 => Ok(desc(1, b"MJPG", FMT_FLAG_COMPRESSED | FMT_FLAG_EMULATED)),
        _ => Err(EINVAL),
    }
}

fn list(it: &mut FormatIter) -> Vec<([u8; 4], String, bool, bool)> {
    let mut out = vec![];
    loop {
        let q = it.request();
        match it.next(answer_format(&q)) {
            Some(Ok(f)) => out.push((f.format, f.description, f.compressed, f.emulated)),
            Some(Err(e)) => panic!("{:?}", e),
            None => return out,
        }
    }
}

#[test]
fn format_listing_is_restartable() {
    let first = list(&mut FormatIter::new());
    let second = list(&mut FormatIter::new());
    assert_eq!(first, second);
    assert_eq!(
        first,
        vec![
            (*b"YUYV", "YUYV".to_string(), false, false),
            (*b"MJPG", "MJPG".to_string(), true, true),
        ]
    );
}

#[test]
fn format_listing_passes_errors_on() {
    let mut it = FormatIter::new();
    assert!(matches!(it.next(Err(5)), Some(Err(Error::Io(5)))));
    // The error ends the listing: a later answer yields nothing.
    assert!(it.is_exhausted());
    assert!(it.next(Ok(desc(0, b"YUYV", 0))).is_none());

    let mut it = FormatIter::new();
    assert!(it.next(Ok(desc(0, b"YUYV", 0))).is_some());
    assert!(it.next(Err(EINVAL)).is_none());
    assert!(it.is_exhausted());
}

#[test]
fn format_info_from_driver_fields() {
    let f = FormatInfo::new(0x34363248, b"H.264\0garbage", FMT_FLAG_COMPRESSED);
    assert_eq!(&f.format, b"H264");
    assert_eq!(f.description, "H.264");
    assert!(f.compressed);
    assert!(!f.emulated);
    assert_eq!(FormatInfo::fourcc(b"YUYV"), 0x56595559);
}

#[test]
fn c_strings_are_cut_at_nul() {
    assert_eq!(buffer_to_string(b"abc\0def"), "abc");
    assert_eq!(buffer_to_string(b"abc"), "abc");
    assert_eq!(buffer_to_string(b"\0abc"), "");
    assert_eq!(buffer_to_string(b""), "");
    assert_eq!(buffer_to_string(b"a\xffb\0"), "a\u{fffd}b");
}

#[test]
fn query_outcomes() {
    assert_eq!(xioctl_valid(Ok(())), Ok(true));
    assert_eq!(xioctl_valid(Err(EINVAL)), Ok(false));
    assert_eq!(xioctl_valid(Err(13)), Err(13));
}

fn size_answer(q: &Frmsizeenum, sizes: &[(u32, u32)], fourcc: u32) -> Result<Frmsizeenum, i32> {
    let mut s = Frmsizeenum::new(fourcc);
    s.index = q.index;
    match sizes.get(q.index as usize) {
        Some(&(w, h)) => {
            s.ftype = 1;
            s.data[0] = w;
            s.data[1] = h;
            Ok(s)
        }
        None => Err(EINVAL),
    }
}

fn walk_sizes(format: &[u8], sizes: &[(u32, u32)], fourcc: u32) -> Result<ResolutionInfo, Error> {
    let mut w = ResolutionWalk::new(format)?;
    loop {
        let q = w.request();
        if let Some(r) = w.answer(size_answer(&q, sizes, fourcc)) {
            return r;
        }
    }
}

#[test]
fn discrete_sizes_in_driver_order() {
    let sizes = [(640, 480), (320, 240), (1280, 720)];
    let fourcc = FormatInfo::fourcc(b"YUYV");
    assert_eq!(
        walk_sizes(b"YUYV", &sizes, fourcc),
        Ok(ResolutionInfo::Discretes(vec![(640, 480), (320, 240), (1280, 720)]))
    );
    assert_eq!(walk_sizes(b"YUYV", &sizes, fourcc + 1), Err(Error::BadFormat));
    assert_eq!(walk_sizes(b"YUYVX", &sizes, fourcc), Err(Error::BadFormat));
}

#[test]
fn stepwise_sizes_in_one_answer() {
    let mut w = ResolutionWalk::new(b"GREY").unwrap();
    let mut s = w.request();
    s.ftype = 3;
    s.data = [16, 1920, 8, 16, 1080, 4];
    assert_eq!(
        w.answer(Ok(s)),
        Some(Ok(ResolutionInfo::Stepwise { min: (16, 16), max: (1920, 1080), step: (8, 4) }))
    );
}

#[test]
fn size_walk_errors() {
    let mut w = ResolutionWalk::new(b"GREY").unwrap();
    assert_eq!(w.answer(Err(16)), Some(Err(Error::Io(16))));
    let mut w = ResolutionWalk::new(b"GREY").unwrap();
    assert_eq!(w.answer(Err(EINVAL)), Some(Ok(ResolutionInfo::Discretes(vec![]))));
}

#[test]
fn discrete_intervals_and_mismatches() {
    let fourcc = FormatInfo::fourcc(b"YUYV");
    let answer = |q: &Frmivalenum, width: u32| -> Result<Frmivalenum, i32> {
        let rates = [(1u32, 30u32), (1, 15)];
        let mut s = Frmivalenum::new(fourcc, (width, 480));
        s.index = q.index;
        match rates.get(q.index as usize) {
            Some(&(n, d)) => {
                s.ftype = 1;
                s.data[0] = n;
                s.data[1] = d;
                Ok(s)
            }
            None => Err(EINVAL),
        }
    };
    let run = |width: u32| -> Result<IntervalInfo, Error> {
        let mut w = IntervalWalk::new(b"YUYV", (640, 480))?;
        loop {
            let q = w.request();
            if let Some(r) = w.answer(answer(&q, width)) {
                return r;
            }
        }
    };
    assert_eq!(run(640), Ok(IntervalInfo::Discretes(vec![(1, 30), (1, 15)])));
    assert_eq!(run(320), Err(Error::BadResolution));
    assert!(matches!(IntervalWalk::new(b"YU", (640, 480)), Err(Error::BadFormat)));
}

#[test]
fn stepwise_intervals() {
    let mut w = IntervalWalk::new(b"YUYV", (640, 480)).unwrap();
    let mut s = w.request();
    s.ftype = 2;
    s.data = [1, 60, 1, 1, 1, 60];
    assert_eq!(
        w.answer(Ok(s)),
        Some(Ok(IntervalInfo::Stepwise { min: (1, 60), max: (1, 1), step: (1, 60) }))
    );
}

#[test]
fn renderings() {
    let sizes = ResolutionInfo::Discretes(vec![(640, 480), (320, 240)]);
    assert_eq!(sizes.describe(), "Discretes: 640x480, 320x240");
    let range = ResolutionInfo::Stepwise { min: (16, 16), max: (1920, 1080), step: (8, 8) };
    assert_eq!(range.describe(), "Stepwise from 16x16 to 1920x1080 by 8x8");
    let rates = IntervalInfo::Discretes(vec![(1, 30), (1, 15), (0, 1)]);
    assert_eq!(rates.describe(), "Discretes: 30fps, 15fps, ?fps");
    let range = IntervalInfo::Stepwise { min: (1, 60), max: (1, 1), step: (1, 60) };
    assert_eq!(range.describe(), "Stepwise from 1fps to 60fps by 60fps");
    assert_eq!(ResolutionInfo::Discretes(vec![]).describe(), "Discretes: ");

    let mjpg = FormatInfo::new(FormatInfo::fourcc(b"MJPG"), b"Motion-JPEG\0", FMT_FLAG_COMPRESSED);
    assert_eq!(mjpg.describe(), "MJPG (Motion-JPEG, compressed)");
    let yuyv = FormatInfo::new(FormatInfo::fourcc(b"YUYV"), b"YUYV 4:2:2", FMT_FLAG_EMULATED);
    assert_eq!(yuyv.describe(), "YUYV (YUYV 4:2:2, emulated)");
    let raw = FormatInfo::new(FormatInfo::fourcc(b"GREY"), b"Greyscale", 0);
    assert_eq!(raw.describe(), "GREY (Greyscale)");
}

#[test]
fn repeated_sizes_are_listed_once() {
    let sizes = [(640, 480), (320, 240), (640, 480), (320, 240), (160, 120)];
    let fourcc = FormatInfo::fourcc(b"YUYV");
    assert_eq!(
        walk_sizes(b"YUYV", &sizes, fourcc),
        Ok(ResolutionInfo::Discretes(vec![(640, 480), (320, 240), (160, 120)]))
    );
}

#[test]
fn senseless_stepwise_ranges_are_refused() {
    for data in [[10, 5, 1, 10, 20, 1], [10, 20, 1, 30, 20, 1], [10, 20, 0, 10, 20, 1], [10, 20, 1, 10, 20, 0]] {
        let mut w = ResolutionWalk::new(b"GREY").unwrap();
        let mut s = w.request();
        s.ftype = 3;
        s.data = data;
        assert_eq!(w.answer(Ok(s)), Some(Err(Error::Io(5))));
    }
}

#[test]
fn stepwise_intervals_as_the_driver_gives_them() {
    let mut w = IntervalWalk::new(b"YUYV", (640, 480)).unwrap();
    let mut s = w.request();
    s.ftype = 3;
    s.data = [1, 10, 1, 60, 0, 60];
    assert_eq!(
        w.answer(Ok(s)),
        Some(Ok(IntervalInfo::Stepwise { min: (1, 10), max: (1, 60), step: (0, 60) }))
    );
}

#[test]
fn repeated_intervals_are_kept() {
    let fourcc = FormatInfo::fourcc(b"YUYV");
    let rates = [(1u32, 30u32), (1, 30), (1, 15)];
    let mut w = IntervalWalk::new(b"YUYV", (640, 480)).unwrap();
    let result = loop {
        let q = w.request();
        let mut s = Frmivalenum::new(fourcc, (640, 480));
        s.index = q.index;
        let reply = match rates.get(q.index as usize) {
            Some(&(n, d)) => {
                s.ftype = 1;
                s.data[0] = n;
                s.data[1] = d;
                Ok(s)
            }
            None => Err(EINVAL),
        };
        if let Some(r) = w.answer(reply) {
            break r;
        }
    };
    assert_eq!(result, Ok(IntervalInfo::Discretes(vec![(1, 30), (1, 30), (1, 15)])));
}

#[test]
fn interval_walk_first_query_not_applicable() {
    let mut w = IntervalWalk::new(b"YUYV", (640, 480)).unwrap();
    assert_eq!(w.answer(Err(EINVAL)), Some(Ok(IntervalInfo::Discretes(vec![]))));
}
