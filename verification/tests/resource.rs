use rslock::resource::{LockResource, ToLockResource};

#[test]
fn text_names_its_utf8_bytes() {
    assert_eq!("my_mutex".to_lock_resource().to_vec(), b"my_mutex".to_vec());
    assert_eq!("žlutý".to_lock_resource().to_vec(), "žlutý".as_bytes().to_vec());
    assert_eq!("".to_lock_resource().to_vec(), Vec::<u8>::new());
}

#[test]
fn bytes_name_themselves() {
    let bytes: Vec<u8> = vec![0, 255, 13, 10];
    assert_eq!((&bytes).to_lock_resource().to_vec(), bytes);
    assert_eq!(bytes.as_slice().to_lock_resource().to_vec(), bytes);
    assert_eq!(b"resource_1".to_lock_resource().to_vec(), b"resource_1".to_vec());
    let resource: LockResource<'_> = bytes.as_slice().to_lock_resource();
    assert_eq!((&resource).to_lock_resource().to_vec(), bytes);
    assert_eq!(resource.as_slice(), bytes.as_slice());
}

#[test]
fn parts_name_what_they_join_to() {
    let texts: &[&str] = &["tenant", "", ":", "žlutý"];
    assert_eq!(texts.to_lock_resource().to_vec(), "tenant:žlutý".as_bytes().to_vec());
    let parts: &[&[u8]] = &[b"ab", b"", b"\xff\x00", b"c"];
    assert_eq!(parts.to_lock_resource().to_vec(), b"ab\xff\x00c".to_vec());
    let none: &[&str] = &[];
    assert_eq!(none.to_lock_resource().to_vec(), Vec::<u8>::new());
    let nothing: &[&[u8]] = &[];
    assert_eq!(nothing.to_lock_resource().to_vec(), Vec::<u8>::new());
}

#[test]
fn text_parts_and_their_bytes_name_the_same_key() {
    let texts: &[&str] = &["a", "žlutý", "b"];
    let bytes: &[&[u8]] = &[b"a", "žlutý".as_bytes(), b"b"];
    assert_eq!(texts.to_lock_resource().to_vec(), bytes.to_lock_resource().to_vec());
    assert_eq!(texts.to_lock_resource().to_vec(), "ažlutýb".to_lock_resource().to_vec());
}
