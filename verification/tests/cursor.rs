use usb_pd_sink::buffer::{Buffer, Error};

#[test]
fn take_consumes_from_the_front() {
    let mut buf = Buffer::new(vec![1u8, 2, 3, 4, 5]);
    assert_eq!(buf.position(), 0);
    assert_eq!(buf.take(2).unwrap(), &[1, 2]);
    assert_eq!(buf.position(), 2);
    assert_eq!(buf.take(3).unwrap(), &[3, 4, 5]);
    assert_eq!(buf.position(), 5);
}

#[test]
fn take_past_the_end_fails_without_moving() {
    let mut buf = Buffer::new(vec![1u8, 2, 3]);
    assert_eq!(buf.take(2).unwrap(), &[1, 2]);
    assert_eq!(buf.take(2), Err(Error::Eof));
    assert_eq!(buf.position(), 2);
    assert_eq!(buf.take(1).unwrap(), &[3]);
}

#[test]
fn into_inner_returns_the_container() {
    let buf = Buffer::new(vec![9u8, 8]);
    assert_eq!(buf.into_inner(), vec![9, 8]);
}
