use rscam::control::{control_class, ext_controls_for, set_request, ControlIter, ControlQuery, CtrlAnswer, CtrlData, CtrlRequest, ReadStep, Stage};
use rscam::error::EINVAL;
use rscam::v4l2::{
    CTRL_TYPE_BITMASK, CTRL_TYPE_BOOLEAN, CTRL_TYPE_BUTTON, CTRL_TYPE_CTRL_CLASS, CTRL_TYPE_INTEGER,
    CTRL_TYPE_INTEGER64, CTRL_TYPE_INTEGER_MENU, CTRL_TYPE_MENU, CTRL_TYPE_STRING, NEXT_CTRL,
};
use rscam::{Camera, Control, Error};

struct Ctrl {
    id: u32,
    qtype: u32,
    name: &'static str,
    min: i64,
    max: i64,
    step: i64,
    default: i64,
    flags: u32,
    value: i64,
    text: &'static str,
    items: Vec<(u32, &'static str, i64)>,
}

fn ctrl(id: u32, qtype: u32, name: &'static str) -> Ctrl {
    Ctrl { id, qtype, name, min: 0, max: 0, step: 0, default: 0, flags: 0, value: 0, text: "", items: vec![] }
}

/// A driver that keeps the values it is sent.
struct Device {
    ctrls: Vec<Ctrl>,
}

impl Device {
    fn new() -> Device {
        let mut brightness = ctrl(0x00980900, CTRL_TYPE_INTEGER, "Brightness");
        brightness.min = -64;
        brightness.max = 64;
        brightness.step = 1;
        brightness.value = 10;
        let mut auto = ctrl(0x0098090c, CTRL_TYPE_BOOLEAN, "White Balance, Auto");
        auto.default = 1;
        auto.value = 1;
        let mut power = ctrl(0x00980918, CTRL_TYPE_MENU, "Power Line Frequency");
        power.max = 3;
        power.value = 2;
        power.default = 1;
        power.items = vec![(0, "Disabled", 0), (1, "50 Hz", 0), (2, "60 Hz", 0)];
        let mut exposure = ctrl(0x009a0902, CTRL_TYPE_INTEGER64, "Exposure, Absolute");
        exposure.min = 1;
        exposure.max = 1 << 40;
        exposure.step = 1;
        exposure.default = 156;
        exposure.value = 5_000_000_000;
        let mut label = ctrl(0x009a0a00, CTRL_TYPE_STRING, "Label");
        label.max = 15;
        label.step = 1;
        label.text = "front door";
        let mut freq = ctrl(0x009a0a01, CTRL_TYPE_INTEGER_MENU, "Link Frequency");
        freq.min = 0;
        freq.max = 1;
        freq.value = 1;
        freq.items = vec![(0, "", 336000000), (1, "", 8_000_000_000)];
        let mut mask = ctrl(0x009a0a02, CTRL_TYPE_BITMASK, "Mask");
        mask.max = 0xff;
        mask.value = 0x0f;
        Device {
            ctrls: vec![
                ctrl(0x00980001, CTRL_TYPE_CTRL_CLASS, "User Controls"),
                brightness,
                auto,
                power,
                ctrl(0x00980920, CTRL_TYPE_BUTTON, "Reset"),
                ctrl(0x009a0001, CTRL_TYPE_CTRL_CLASS, "Camera Controls"),
                exposure,
                label,
                freq,
                mask,
            ],
        }
    }

    fn find(&self, id: u32) -> Option<&Ctrl> {
        if id & NEXT_CTRL != 0 {
            let after = id & !NEXT_CTRL;
            self.ctrls.iter().find(|c| c.id > after)
        } else {
            self.ctrls.iter().find(|c| c.id == id)
        }
    }

    fn answer(&mut self, request: CtrlRequest) -> Result<CtrlAnswer, i32> {
        match request {
            CtrlRequest::Query(mut q) => {
                let c = self.find(q.id).ok_or(EINVAL)?;
                q.id = c.id;
                q.qtype = c.qtype;
                q.name[..c.name.len()].copy_from_slice(c.name.as_bytes());
                q.minimum = c.min as i32;
                q.maximum = c.max as i32;
                q.step = c.step as i32;
                q.default_value = c.default as i32;
                q.flags = c.flags;
                Ok(CtrlAnswer::Query(q))
            }
            CtrlRequest::Value(mut v) => {
                v.value = self.find(v.id).ok_or(EINVAL)?.value as i32;
                Ok(CtrlAnswer::Value(v))
            }
            CtrlRequest::ExtQuery(mut q) => {
                let c = self.find(q.id).ok_or(EINVAL)?;
                q.minimum = c.min;
                q.maximum = c.max;
                q.step = c.step as u64;
                q.default_value = c.default;
                Ok(CtrlAnswer::ExtQuery(q))
            }
            CtrlRequest::ExtValue(mut e) => {
                e.value = self.find(e.id).ok_or(EINVAL)?.value;
                Ok(CtrlAnswer::ExtValue(e))
            }
            CtrlRequest::Text(e) => {
                let c = self.find(e.id).ok_or(EINVAL)?;
                let mut buf = vec![0u8; e.size as usize];
                buf[..c.text.len()].copy_from_slice(c.text.as_bytes());
                Ok(CtrlAnswer::Text(buf))
            }
            CtrlRequest::MenuItem(mut m) => {
                let c = self.find(m.id).ok_or(EINVAL)?;
                let (_, name, value) = *c.items.iter().find(|i| i.0 == m.index).ok_or(EINVAL)?;
                if c.qtype == CTRL_TYPE_MENU {
                    m.data.raw[..name.len()].copy_from_slice(name.as_bytes());
                } else {
                    m.data.raw[..8].copy_from_slice(&value.to_le_bytes());
                }
                Ok(CtrlAnswer::MenuItem(m))
            }
        }
    }

    fn set(&mut self, id: u32, value: i64) {
        self.ctrls.iter_mut().find(|c| c.id == id).unwrap().value = value;
    }
}

fn read(device: &mut Device, id: u32) -> Result<Control, Error> {
    let mut query = ControlQuery::new(id);
    loop {
        let reply = device.answer(query.request());
        match query.answer(reply) {
            ReadStep::Next(next) => query = next,
            ReadStep::Finished(r) => return r,
        }
    }
}

#[test]
fn integer_control() {
    let c = read(&mut Device::new(), 0x00980900).unwrap();
    assert_eq!(c.id, 0x00980900);
    assert_eq!(c.name, "Brightness");
    assert!(matches!(
        c.data,
        CtrlData::Integer { value: 10, default: 0, minimum: -64, maximum: 64, step: 1 }
    ));
}

#[test]
fn boolean_and_bitmask_controls() {
    let mut d = Device::new();
    assert!(matches!(read(&mut d, 0x0098090c).unwrap().data, CtrlData::Boolean { value: true, default: true }));
    assert!(matches!(
        read(&mut d, 0x009a0a02).unwrap().data,
        CtrlData::Bitmask { value: 0x0f, default: 0, maximum: 0xff }
    ));
}

#[test]
fn menu_control_skips_missing_items() {
    let c = read(&mut Device::new(), 0x00980918).unwrap();
    match c.data {
        CtrlData::Menu { value, default, items } => {
            assert_eq!((value, default), (2, 1));
            let items: Vec<(u32, String)> = items.into_iter().map(|i| (i.index, i.name)).collect();
            assert_eq!(
                items,
                vec![(0, "Disabled".to_string()), (1, "50 Hz".to_string()), (2, "60 Hz".to_string())]
            );
        }
        _ => panic!("not a menu"),
    }
}

#[test]
fn integer_menu_control() {
    let c = read(&mut Device::new(), 0x009a0a01).unwrap();
    match c.data {
        CtrlData::IntegerMenu { value, items, .. } => {
            assert_eq!(value, 1);
            let items: Vec<(u32, i64)> = items.into_iter().map(|i| (i.index, i.value)).collect();
            assert_eq!(items, vec![(0, 336000000), (1, 8_000_000_000)]);
        }
        _ => panic!("not an integer menu"),
    }
}

#[test]
fn integer64_and_string_controls() {
    let mut d = Device::new();
    assert!(matches!(
        read(&mut d, 0x009a0902).unwrap().data,
        CtrlData::Integer64 { value: 5_000_000_000, default: 156, minimum: 1, maximum: 1099511627776, step: 1 }
    ));
    match read(&mut d, 0x009a0a00).unwrap().data {
        CtrlData::String { value, minimum, maximum, step } => {
            assert_eq!(value, "front door");
            assert_eq!((minimum, maximum, step), (0, 15, 1));
        }
        _ => panic!("not a string"),
    }
}

#[test]
fn string_control_asks_room_for_terminator() {
    let mut d = Device::new();
    let mut q = ControlQuery::new(0x009a0a00);
    let reply = d.answer(q.request());
    q = match q.answer(reply) {
        ReadStep::Next(n) => n,
        ReadStep::Finished(_) => panic!("finished early"),
    };
    assert_eq!(q.stage(), Stage::Text);
    match q.request() {
        CtrlRequest::Text(e) => assert_eq!(e.size, 16),
        _ => panic!("not a text request"),
    }
}

#[test]
fn button_class_and_missing_controls() {
    let mut d = Device::new();
    assert!(matches!(read(&mut d, 0x00980920).unwrap().data, CtrlData::Button));
    assert!(matches!(read(&mut d, 0x00980001).unwrap().data, CtrlData::CtrlClass));
    assert!(matches!(read(&mut d, 0x00981234), Err(Error::Io(EINVAL))));
}

fn list(d: &mut Device, mut it: ControlIter) -> Vec<u32> {
    let mut ids = vec![];
    loop {
        let r = read(d, it.next_id());
        match it.next(r) {
            Some(Ok(c)) => ids.push(c.id),
            Some(Err(e)) => panic!("{:?}", e),
            None => return ids,
        }
    }
}

#[test]
fn listing_all_controls_and_one_class() {
    let mut d = Device::new();
    let camera = Camera::new();
    assert_eq!(list(&mut d, camera.controls()).len(), 10);
    assert_eq!(
        list(&mut d, camera.controls_by_class(0x00980000)),
        vec![0x00980001, 0x00980900, 0x0098090c, 0x00980918, 0x00980920]
    );
    assert_eq!(control_class(0x009a0902), 0x009a0000);
}

#[test]
fn set_then_get_round_trip() {
    let mut d = Device::new();
    let camera = Camera::new();
    let e = camera.set_control(0x00980900, &-20i32);
    assert_eq!((e.id, e.size, e.value), (0x00980900, 0, -20));
    d.set(e.id, e.value);
    assert!(matches!(read(&mut d, 0x00980900).unwrap().data, CtrlData::Integer { value: -20, .. }));

    let e = set_request(0x0098090c, &false);
    assert_eq!(e.value, 0);
    d.set(e.id, e.value);
    assert!(matches!(read(&mut d, 0x0098090c).unwrap().data, CtrlData::Boolean { value: false, .. }));

    let e = set_request(0x00980918, &1u32);
    d.set(e.id, e.value);
    assert!(matches!(read(&mut d, 0x00980918).unwrap().data, CtrlData::Menu { value: 1, .. }));

    let e = set_request(0x009a0902, &7_000_000_000i64);
    d.set(e.id, e.value);
    assert!(matches!(read(&mut d, 0x009a0902).unwrap().data, CtrlData::Integer64 { value: 7_000_000_000, .. }));
}

#[test]
fn set_request_header() {
    let e = set_request(0x009a0902, &5i64);
    let h = ext_controls_for(&e, 0x1000);
    assert_eq!((h.ctrl_class, h.count, h.error_idx, h.controls), (0x009a0000, 1, 0, 0x1000));
}
