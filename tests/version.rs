use cubism_core::{CubismVersion, Error, Moc, MocBuffer, MocVersion};

#[test]
fn test_cubism_version() {
    let version = CubismVersion::new(0x0502_0003);
    assert_eq!(
        version.version,
        ((version.major() as u32) << 24) + ((version.minor() as u32) << 16) + version.patch() as u32
    );
    assert_eq!(version.major(), 5);
    assert_eq!(version.minor(), 2);
    assert_eq!(version.patch(), 3);
}

#[test]
fn version_parts_of_largest_number() {
    let version = CubismVersion::new(u32::MAX);
    assert_eq!(version.major(), 0xFF);
    assert_eq!(version.minor(), 0xFF);
    assert_eq!(version.patch(), 0xFFFF);
}

#[test]
fn moc_version_tags() {
    assert!(MocVersion::new(1).is_version30());
    assert!(MocVersion::new(2).is_version33());
    assert!(MocVersion::new(3).is_version40());
    assert!(MocVersion::new(0).is_version_unknown());
    assert!(MocVersion::new(4).is_version_unknown());
    assert_eq!(MocVersion::from(3), MocVersion::Version40);
}

#[test]
fn moc_version_order() {
    assert!(MocVersion::Version33.is_newer_than(&MocVersion::Version30));
    assert!(MocVersion::Version40.is_newer_than(&MocVersion::Version33));
    assert!(MocVersion::VersionUnknown.is_newer_than(&MocVersion::Version40));
    assert!(!MocVersion::Version30.is_newer_than(&MocVersion::Version30));
    assert!(!MocVersion::Version30.is_newer_than(&MocVersion::Version40));
}

#[test]
fn version_check_against_latest() {
    assert_eq!(Moc::check_version(2, 3).ok(), Some(MocVersion::Version33));
    assert_eq!(Moc::check_version(3, 3).ok(), Some(MocVersion::Version40));
    assert!(matches!(Moc::check_version(3, 2), Err(Error::InvalidMocVersion(3))));
    assert!(matches!(Moc::check_version(9, 3), Err(Error::InvalidMocVersion(9))));
}

#[test]
fn moc_buffer_copies_and_aligns() {
    let data: Vec<u8> = (0u8..100).collect();
    let buffer = MocBuffer::new(&data).ok().unwrap();
    assert_eq!(buffer.len(), 100);
    assert_eq!(buffer.as_slice(), &data[..]);
    assert_eq!(buffer.as_slice().as_ptr() as usize % cubism_core::ALIGN_OF_MOC, 0);
}

#[test]
fn moc_creation_outcomes() {
    let data = [7u8; 40];
    let moc = Moc::new(MocBuffer::new(&data).ok().unwrap(), 1, 3, true).ok().unwrap();
    assert!(moc.version().is_version30());
    assert!(moc.latest_version().is_version40());
    assert_eq!(moc.moc_size(), 40);
    assert_eq!(moc.as_bytes(), &data[..]);
    let shared = moc.clone();
    assert_eq!(shared.moc_size(), 40);
    assert_eq!(shared.as_bytes().as_ptr(), moc.as_bytes().as_ptr());

    let newer = Moc::new(MocBuffer::new(&data).ok().unwrap(), 3, 2, true);
    assert!(matches!(newer, Err(Error::InvalidMocVersion(3))));
    let unknown = Moc::new(MocBuffer::new(&data).ok().unwrap(), 0, 3, true);
    assert!(matches!(unknown, Err(Error::InvalidMocVersion(0))));
    let corrupt = Moc::new(MocBuffer::new(&data).ok().unwrap(), 2, 3, false);
    assert!(matches!(corrupt, Err(Error::InvalidMocData)));
}

#[test]
fn empty_moc_data_is_refused_by_the_engine_answers() {
    let buffer = MocBuffer::new(&[]).ok().unwrap();
    assert_eq!(buffer.len(), 0);
    let moc = Moc::new(buffer, 0, 3, false);
    assert!(matches!(moc, Err(Error::InvalidMocVersion(0))));
    let buffer = MocBuffer::new(&[]).ok().unwrap();
    assert!(matches!(Moc::new(buffer, 3, 3, false), Err(Error::InvalidMocData)));
    let buffer = MocBuffer::new(&[]).ok().unwrap();
    assert!(matches!(Moc::new(buffer, 3, 3, true), Err(Error::InvalidMocData)));
}
