use rscam::v4l2::{VIDIOC_DQBUF, VIDIOC_DQBUF_32, VIDIOC_S_FMT, VIDIOC_S_FMT_32, VIDIOC_STREAMON};
use rscam::v4l2::{
    request_code, Buffer, Control, ExtControl, ExtControls, FmtDesc, Format, Frmivalenum, Frmsizeenum, QueryCtrl,
    QueryExtCtrl, QueryMenu, RequestBuffers, StreamParm, BUF_TYPE_VIDEO_CAPTURE, MEMORY_MMAP,
};

#[test]
fn test_sizes() {
    if usize::BITS == 64 {
        assert_eq!(Format::new((0, 0), 0, 0).to_bytes().len(), 208);
    } else {
        assert_eq!(Format::new((0, 0), 0, 0).to_bytes().len(), 204);
    }

    if usize::BITS == 64 {
        assert_eq!(Buffer::new().to_bytes().len(), 88);
    } else {
        assert_eq!(Buffer::new().to_bytes().len(), 68);
    }

    assert_eq!(StreamParm::new((1, 30)).to_bytes().len(), 204);
    assert_eq!(FmtDesc::new(0).to_bytes().len(), 64);
    assert_eq!(Frmsizeenum::new(0).to_bytes().len(), 44);
    assert_eq!(Frmivalenum::new(0, (0, 0)).to_bytes().len(), 52);
    assert_eq!(QueryCtrl::new(0).to_bytes().len(), 68);
    assert_eq!(QueryExtCtrl::new(0).to_bytes().len(), 232);
    assert_eq!(QueryMenu::new(0).to_bytes().len(), 44);
    assert_eq!(Control::new(0).to_bytes().len(), 8);
    assert_eq!(ExtControl::new(0, 0).to_bytes().len(), 20);
    if usize::BITS == 64 {
        assert_eq!(ExtControls::new(0, 0).to_bytes().len(), 32);
    } else {
        assert_eq!(ExtControls::new(0, 0).to_bytes().len(), 24);
    }
    assert_eq!(RequestBuffers::new(2).to_bytes().len(), 20);
}

fn u32_at(b: &[u8], off: usize) -> u32 {
    u32::from_le_bytes([b[off], b[off + 1], b[off + 2], b[off + 3]])
}

#[test]
fn format_fields_at_kernel_offsets() {
    let b = Format::new((640, 480), 0x56595559, 1).to_bytes();
    // The pixel format follows padding to eight bytes on the 64-bit ABI.
    let o = if usize::BITS == 64 { 8 } else { 4 };
    assert_eq!(u32_at(&b, 0), BUF_TYPE_VIDEO_CAPTURE);
    assert!(b[4..o].iter().all(|&x| x == 0));
    assert_eq!(u32_at(&b, o), 640);
    assert_eq!(u32_at(&b, o + 4), 480);
    assert_eq!(u32_at(&b, o + 8), 0x56595559);
    assert_eq!(u32_at(&b, o + 12), 1);
    assert!(b[o + 16..].iter().all(|&x| x == 0));
    let back = Format::from_bytes(&b);
    assert_eq!(back.fmt.width, 640);
    assert_eq!(back.fmt.height, 480);
    assert_eq!(back.fmt.pixelformat, 0x56595559);
    assert_eq!(back.fmt.field, 1);
}

#[test]
fn buffer_fields_at_kernel_offsets() {
    let mut buf = Buffer::with_index(3);
    buf.bytesused = 1000;
    buf.m = if usize::BITS == 64 { 0x1_0000_2000 } else { 0x2000 };
    buf.length = 4096;
    buf.timestamp.tv_sec = 7;
    buf.timestamp.tv_usec = 9;
    let b = buf.to_bytes();
    assert_eq!(u32_at(&b, 0), 3);
    assert_eq!(u32_at(&b, 4), BUF_TYPE_VIDEO_CAPTURE);
    assert_eq!(u32_at(&b, 8), 1000);
    if usize::BITS == 64 {
        assert_eq!(u32_at(&b, 24), 7);
        assert_eq!(u32_at(&b, 32), 9);
        assert_eq!(u32_at(&b, 60), MEMORY_MMAP);
        assert_eq!(u32_at(&b, 64), 0x2000);
        assert_eq!(u32_at(&b, 68), 1);
        assert_eq!(u32_at(&b, 72), 4096);
    } else {
        assert_eq!(u32_at(&b, 20), 7);
        assert_eq!(u32_at(&b, 24), 9);
        assert_eq!(u32_at(&b, 48), MEMORY_MMAP);
        assert_eq!(u32_at(&b, 52), 0x2000);
        assert_eq!(u32_at(&b, 56), 4096);
    }
    let back = Buffer::from_bytes(&b);
    assert_eq!(back.index, 3);
    assert_eq!(back.bytesused, 1000);
    assert_eq!(back.m, buf.m);
    assert_eq!(back.length, 4096);
    assert_eq!(back.timestamp.tv_sec, 7);
    assert_eq!(back.timestamp.tv_usec, 9);
}

#[test]
fn stream_parm_interval_at_kernel_offset() {
    let b = StreamParm::new((1, 30)).to_bytes();
    assert_eq!(u32_at(&b, 0), BUF_TYPE_VIDEO_CAPTURE);
    assert_eq!(u32_at(&b, 12), 1);
    assert_eq!(u32_at(&b, 16), 30);
    let back = StreamParm::from_bytes(&b);
    assert_eq!(back.parm.timeperframe.numerator, 1);
    assert_eq!(back.parm.timeperframe.denominator, 30);
}

#[test]
fn frame_size_answer_read_by_type() {
    let mut b = Frmsizeenum::new(0x47504a4d).to_bytes();
    for (i, w) in [160u32, 1280, 16, 120, 720, 8].iter().enumerate() {
        b[12 + 4 * i..16 + 4 * i].copy_from_slice(&w.to_le_bytes());
    }
    let s = Frmsizeenum::from_bytes(&b);
    assert_eq!(s.pixelformat, 0x47504a4d);
    let d = s.discrete();
    assert_eq!((d.width, d.height), (160, 1280));
    let sw = s.stepwise();
    assert_eq!((sw.min_width, sw.max_width, sw.step_width), (160, 1280, 16));
    assert_eq!((sw.min_height, sw.max_height, sw.step_height), (120, 720, 8));
}

#[test]
fn control_records_at_kernel_offsets() {
    let mut e = ExtControl::new(0x00980900, 0);
    e.value = -2;
    let b = e.to_bytes();
    assert_eq!(u32_at(&b, 0), 0x00980900);
    assert_eq!(u32_at(&b, 8), 0);
    assert_eq!(&b[12..20], &(-2i64).to_le_bytes());
    assert_eq!(ExtControl::from_bytes(&b).value, -2);

    let h = ExtControls::new(0x00980000, 0xdead_beef_0000).to_bytes();
    assert_eq!(u32_at(&h, 0), 0x00980000);
    assert_eq!(u32_at(&h, 4), 1);
    assert_eq!(&h[24..32], &0xdead_beef_0000u64.to_le_bytes());

    let mut q = QueryCtrl::new(5).to_bytes();
    q[8..13].copy_from_slice(b"Gain\0");
    q[40..44].copy_from_slice(&(-10i32).to_le_bytes());
    let back = QueryCtrl::from_bytes(&q);
    assert_eq!(back.id, 5);
    assert_eq!(&back.name[..5], b"Gain\0");
    assert_eq!(back.minimum, -10);

    let mut m = QueryMenu::new(9).to_bytes();
    m[8..16].copy_from_slice(&1234567890123i64.to_le_bytes());
    assert_eq!(QueryMenu::from_bytes(&m).data.value(), 1234567890123);
}

#[test]
fn request_codes_follow_the_abi() {
    if usize::BITS == 64 {
        assert_eq!(request_code(VIDIOC_DQBUF), VIDIOC_DQBUF);
        assert_eq!(request_code(VIDIOC_S_FMT), VIDIOC_S_FMT);
    } else {
        assert_eq!(request_code(VIDIOC_DQBUF), VIDIOC_DQBUF_32);
        assert_eq!(request_code(VIDIOC_S_FMT), VIDIOC_S_FMT_32);
    }
    assert_eq!(request_code(VIDIOC_STREAMON), VIDIOC_STREAMON);
}
