use zenohc::collections::{
    z_bytes_check, z_bytes_clone, z_bytes_drop, z_bytes_empty, z_bytes_from_str,
    z_bytes_is_initialized, z_bytes_loan, z_bytes_new, z_bytes_null, z_bytes_wrap, z_bytes_t,
    z_id_t, z_owned_bytes_t,
};

#[test]
fn preallocate_fill_loan_release_twice() {
    let mut o = z_owned_bytes_t::preallocate(4);
    o.insert_unchecked(0, &[9, 8]);
    o.insert_unchecked(2, &[7, 6]);
    {
        let v = z_bytes_loan(&o);
        assert_eq!(v.len(), 4);
        assert_eq!(v.as_slice(), Some(&[9u8, 8, 7, 6][..]));
    }
    z_bytes_drop(&mut o);
    assert!(!z_bytes_check(&o));
    z_bytes_drop(&mut o);
    assert!(!z_bytes_check(&o));
    assert!(o.start.is_none());
}

#[test]
fn copy_then_loan_keeps_length_and_bytes() {
    let data = [1u8, 2, 3, 250];
    let o = z_owned_bytes_t::new(&data);
    let v = z_bytes_loan(&o);
    assert_eq!(v.len(), 4);
    assert_eq!(v.as_slice(), Some(&data[..]));
}

#[test]
fn copy_survives_release_of_source() {
    let mut o = z_owned_bytes_t::new(&[5, 6, 7]);
    let copy = z_bytes_clone(&z_bytes_loan(&o));
    z_bytes_drop(&mut o);
    assert!(!z_bytes_check(&o));
    assert_eq!(z_bytes_loan(&copy).as_slice(), Some(&[5u8, 6, 7][..]));
}

#[test]
fn empty_data_gives_gravestone() {
    let o = z_owned_bytes_t::new(&[]);
    assert!(!z_bytes_check(&o));
    let p = z_owned_bytes_t::preallocate(0);
    assert!(!z_bytes_check(&p));
    let c = z_bytes_clone(&z_bytes_wrap(Some(&[1u8, 2][..]), 0));
    assert!(!z_bytes_check(&c));
}

#[test]
fn preallocate_gives_zeroed_bytes() {
    let o = z_owned_bytes_t::preallocate(3);
    assert!(z_bytes_check(&o));
    assert_eq!(z_bytes_loan(&o).as_slice(), Some(&[0u8, 0, 0][..]));
}

#[test]
fn insert_unchecked_keeps_other_bytes() {
    let mut o = z_owned_bytes_t::new(&[1, 2, 3, 4, 5]);
    o.insert_unchecked(1, &[20, 30]);
    assert_eq!(z_bytes_loan(&o).as_slice(), Some(&[1u8, 20, 30, 4, 5][..]));
    o.insert_unchecked(5, &[]);
    assert_eq!(z_bytes_loan(&o).as_slice(), Some(&[1u8, 20, 30, 4, 5][..]));
}

#[test]
fn release_of_gravestone_is_noop() {
    let mut o = z_bytes_null();
    z_bytes_drop(&mut o);
    assert!(!z_bytes_check(&o));
}

#[test]
fn wrap_missing_start_is_gravestone() {
    for n in [0usize, 1, 17] {
        let v = z_bytes_wrap(None, n);
        assert!(!z_bytes_is_initialized(&v));
        assert_eq!(z_bytes_is_initialized(&v), z_bytes_is_initialized(&z_bytes_empty()));
        assert_eq!(v.len(), 0);
    }
}

#[test]
fn wrap_zero_length_is_initialized() {
    let data = [4u8, 5];
    let v = z_bytes_wrap(Some(&data[..]), 0);
    assert!(z_bytes_is_initialized(&v));
    assert_eq!(v.len(), 0);
    assert_eq!(v.as_slice(), Some(&[][..]));
}

#[test]
fn wrap_takes_prefix() {
    let data = [4u8, 5, 6];
    let v = z_bytes_wrap(Some(&data[..]), 2);
    assert_eq!(v.as_slice(), Some(&[4u8, 5][..]));
}

#[test]
fn gravestone_view_defaults() {
    assert!(!z_bytes_is_initialized(&z_bytes_t::empty()));
    assert!(!z_bytes_is_initialized(&z_bytes_t::default()));
    assert_eq!(z_bytes_t::default().as_slice(), None);
    assert!(!z_bytes_check(&z_bytes_clone(&z_bytes_empty())));
}

#[test]
fn view_from_slice() {
    let data = [1u8, 2];
    let v = z_bytes_t::from(&data[..]);
    assert!(z_bytes_is_initialized(&v));
    assert_eq!(v.len(), 2);
}

#[test]
fn from_str_stops_at_terminator() {
    let s = b"hello\0world\0";
    let v = z_bytes_from_str(Some(&s[..]));
    assert_eq!(v.as_slice(), Some(&b"hello"[..]));
    assert_eq!(v.len(), 5);
    let e = z_bytes_from_str(Some(&b"\0"[..]));
    assert!(z_bytes_is_initialized(&e));
    assert_eq!(e.len(), 0);
    assert!(!z_bytes_is_initialized(&z_bytes_from_str(None)));
    assert_eq!(z_bytes_new(Some(&s[..])).as_slice(), Some(&b"hello"[..]));
}

#[test]
fn id_to_owned_bytes() {
    let mut id = [0u8; 16];
    for (i, b) in id.iter_mut().enumerate() {
        *b = i as u8 + 1;
    }
    let o = z_owned_bytes_t::from(z_id_t { id });
    assert_eq!(z_bytes_loan(&o).as_slice(), Some(&id[..]));
    let some = z_owned_bytes_t::from(Some(z_id_t { id }));
    assert_eq!(z_bytes_loan(&some).len(), 16);
    let none = z_owned_bytes_t::from(None::<z_id_t>);
    assert!(!z_bytes_check(&none));
}

#[test]
fn owned_bytes_into_string() {
    let o = z_owned_bytes_t::new(b"peer-7");
    assert_eq!(o.into_string(), Some(String::from("peer-7")));
    let bad = z_owned_bytes_t::new(&[0xff, 0xfe]);
    assert_eq!(bad.into_string(), None);
    assert_eq!(z_bytes_null().into_string(), None);
}
