use scull::channel::{ReadResume, ReadStart};
use scull::device::DeviceTable;
use scull::wait::WakeEvent;

#[test]
fn init_creates_independent_numbered_devices() {
    let t = DeviceTable::init(4).unwrap();
    assert_eq!(t.device_count(), 4);
    for dev in 0..4 {
        assert_eq!(t.control(dev), 0);
    }
}

#[test]
fn open_validates_the_device_number() {
    let t = DeviceTable::init(4).unwrap();
    assert_eq!(t.open(0), Some(0));
    assert_eq!(t.open(3), Some(3));
    assert_eq!(t.open(4), None);
    assert_eq!(t.open(100), None);
}

#[test]
fn writes_land_only_on_their_own_device() {
    let mut t = DeviceTable::init(3).unwrap();
    let dev = t.open(1).unwrap();
    assert_eq!(t.write(dev, &b"hello".to_vec(), 0), Ok(5));
    assert_eq!(t.control(0), 0);
    assert_eq!(t.control(1), 5);
    assert_eq!(t.control(2), 0);
    let mut dest = vec![0u8; 5];
    assert_eq!(t.read_into(1, &mut dest, 0), 5);
    assert_eq!(dest, b"hello".to_vec());
    let mut other = vec![9u8; 5];
    assert_eq!(t.read_into(0, &mut other, 0), 0);
    assert_eq!(other, vec![9u8; 5]);
}

#[test]
fn blocking_read_through_the_table() {
    let mut t = DeviceTable::init(2).unwrap();
    let dev = t.open(0).unwrap();
    let w = match t.read_begin(dev, 8, 0) {
        ReadStart::MustWait(w) => w,
        ReadStart::Ready => panic!("an empty buffer must make a non-empty read wait"),
    };
    // A write on the other device does not wake this reader's channel.
    assert_eq!(t.write(1, &b"elsewhere".to_vec(), 0), Ok(9));
    let mut dest = vec![0u8; 8];
    let w = match t.read_resume(dev, w, WakeEvent::Woken, &mut dest) {
        ReadResume::BlockAgain(w) => w,
        _ => panic!("a wake with an unchanged length must block again"),
    };
    assert_eq!(t.write(dev, &b"here".to_vec(), 0), Ok(4));
    match t.read_resume(dev, w, WakeEvent::Woken, &mut dest) {
        ReadResume::Done(n) => assert_eq!(n, 4),
        _ => panic!("a changed length must complete the read"),
    }
    assert_eq!(&dest[..4], b"here");
}

#[test]
fn control_reports_length_after_a_gapped_write() {
    let mut t = DeviceTable::init(1).unwrap();
    assert_eq!(t.write(0, &b"ab".to_vec(), 0), Ok(2));
    assert_eq!(t.control(0), 2);
    assert_eq!(t.write(0, &b"cd".to_vec(), 5), Ok(2));
    assert_eq!(t.control(0), 7);
    let mut dest = vec![0u8; 7];
    assert_eq!(t.read_into(0, &mut dest, 0), 7);
    assert_eq!(dest, b"ab\0\0\0cd".to_vec());
}
