use zephyr_mcumgr::mcuboot::{get_image_info, ImageInfo, ImageParseError, ImageVersion};

fn image(version: (u8, u8, u16, u32), body: usize, tlvs: &[(u8, Vec<u8>)]) -> Vec<u8> {
    let mut img = Vec::new();
    img.extend_from_slice(&[0x3D, 0xB8, 0xF3, 0x96]);
    img.extend_from_slice(&0u32.to_le_bytes());
    img.extend_from_slice(&32u16.to_le_bytes());
    img.extend_from_slice(&0u16.to_le_bytes());
    img.extend_from_slice(&(body as u32).to_le_bytes());
    img.extend_from_slice(&0u32.to_le_bytes());
    img.push(version.0);
    img.push(version.1);
    img.extend_from_slice(&version.2.to_le_bytes());
    img.extend_from_slice(&version.3.to_le_bytes());
    img.extend_from_slice(&[0u8; 4]);
    assert_eq!(img.len(), 32);
    img.extend(std::iter::repeat(0xEEu8).take(body));
    let total: usize = 4 + tlvs.iter().map(|(_, v)| 4 + v.len()).sum::<usize>();
    img.extend_from_slice(&[0x07, 0x69]);
    img.extend_from_slice(&(total as u16).to_le_bytes());
    for (ty, value) in tlvs {
        img.push(*ty);
        img.push(0);
        img.extend_from_slice(&(value.len() as u16).to_le_bytes());
        img.extend_from_slice(value);
    }
    img
}

fn known_hash() -> [u8; 32] {
    let mut h = [0u8; 32];
    for (i, b) in h.iter_mut().enumerate() {
        *b = (i as u8) * 3 + 1;
    }
    h
}

#[test]
fn mcuboot_image_parse() {
    let img = image((1, 2, 3, 0), 100, &[(0x10, known_hash().to_vec())]);
    let info = get_image_info(&img).unwrap();
    assert_eq!(info.version.to_string(), "1.2.3");
    assert_eq!(info.hash, known_hash());
    assert_eq!(
        info,
        ImageInfo {
            version: ImageVersion { major: 1, minor: 2, revision: 3, build_num: 0 },
            hash: known_hash(),
        }
    );
}

#[test]
fn version_text_shows_a_build_number() {
    let v = ImageVersion { major: 255, minor: 0, revision: 65535, build_num: 4294967295 };
    assert_eq!(v.to_string(), "255.0.65535.4294967295");
    let v = ImageVersion { major: 10, minor: 20, revision: 300, build_num: 0 };
    assert_eq!(v.to_string(), "10.20.300");
}

#[test]
fn hash_is_found_among_other_entries() {
    let img = image(
        (0, 9, 1, 77),
        7,
        &[(0x20, vec![1, 2, 3]), (0x10, known_hash().to_vec()), (0x30, vec![0; 64])],
    );
    let info = get_image_info(&img).unwrap();
    assert_eq!(info.hash, known_hash());
    assert_eq!(info.version.to_string(), "0.9.1.77");
}

#[test]
fn image_errors() {
    assert_eq!(get_image_info(&[]), Err(ImageParseError::ReadFailed));
    assert_eq!(get_image_info(&[0x3D, 0xB8, 0xF3]), Err(ImageParseError::ReadFailed));
    assert_eq!(get_image_info(&[0u8; 64]), Err(ImageParseError::UnknownImageType));
    assert_eq!(get_image_info(&[1, 2, 3, 4]), Err(ImageParseError::UnknownImageType));

    let good = image((1, 0, 0, 0), 10, &[(0x10, known_hash().to_vec())]);
    assert_eq!(get_image_info(&good[..20]), Err(ImageParseError::ReadFailed));
    assert_eq!(get_image_info(&good[..42]), Err(ImageParseError::ReadFailed));
    assert_eq!(get_image_info(&good[..45]), Err(ImageParseError::ReadFailed));
    assert_eq!(get_image_info(&good[..good.len() - 1]), Err(ImageParseError::ReadFailed));

    let mut no_tlv = good.clone();
    no_tlv[42] = 0x08;
    assert_eq!(get_image_info(&no_tlv), Err(ImageParseError::TlvMissing));

    let no_hash = image((1, 0, 0, 0), 10, &[(0x20, vec![1, 2, 3])]);
    assert_eq!(get_image_info(&no_hash), Err(ImageParseError::IdHashMissing));

    // a hash entry of the wrong length is no identity hash
    let short = image((1, 0, 0, 0), 10, &[(0x10, vec![0; 31])]);
    assert_eq!(get_image_info(&short), Err(ImageParseError::IdHashMissing));

    let empty = image((1, 0, 0, 0), 10, &[]);
    assert_eq!(get_image_info(&empty), Err(ImageParseError::IdHashMissing));
}

#[test]
fn image_error_codes() {
    assert_eq!(
        ImageParseError::UnknownImageType.code(),
        "zephyr_mcumgr::mcuboot::image::unknown_type"
    );
    assert_eq!(ImageParseError::TlvMissing.message(), "Image does not contain TLV entries");
    assert_eq!(ImageParseError::IdHashMissing.code(), "zephyr_mcumgr::mcuboot::image::id_hash_missing");
    assert_eq!(ImageParseError::ReadFailed.message(), "Image read failed");
}

#[test]
fn trailing_bytes_in_the_tlv_area_are_refused() {
    let mut img = vec![
        0x3d, 0xb8, 0xf3, 0x96, 0, 0, 0, 0, 32, 0, 0, 0, 0, 0, 0, 0, 0, 0, 0, 0, 1, 2, 3, 0, 0, 0,
        0, 0, 0, 0, 0, 0,
    ];
    img.extend_from_slice(&[0x07, 0x69, 42, 0]);
    img.extend_from_slice(&[0x10, 0, 32, 0]);
    img.extend_from_slice(&[9u8; 32]);
    img.extend_from_slice(&[0xFF, 0xFF]);
    assert_eq!(get_image_info(&img), Err(ImageParseError::ReadFailed));

    // the same image with the size that its one entry makes
    let mut exact = img.clone();
    exact[34] = 40;
    let info = get_image_info(&exact).unwrap();
    assert_eq!(info.hash, [9u8; 32]);
    assert_eq!(info.version.to_string(), "1.2.3");
    exact.truncate(exact.len() - 2);
    assert_eq!(get_image_info(&exact).unwrap().hash, [9u8; 32]);

    // four bytes left over that are an entry without a value: nothing is
    // left over
    let mut empty_entry = exact.clone();
    empty_entry[34] = 44;
    empty_entry.extend_from_slice(&[0x20, 0, 0, 0]);
    assert_eq!(get_image_info(&empty_entry).unwrap().hash, [9u8; 32]);

    // one to seven bytes left over, with or without the bytes being there
    for extra in 1..8u8 {
        let mut declared = exact.clone();
        declared[34] = 40 + extra;
        assert_eq!(get_image_info(&declared), Err(ImageParseError::ReadFailed), "extra {}", extra);
        declared.extend(std::iter::repeat(0xFFu8).take(extra as usize));
        assert_eq!(get_image_info(&declared), Err(ImageParseError::ReadFailed), "extra {}", extra);
    }

    // an entry that runs past the declared size
    let mut short = exact.clone();
    short[34] = 39;
    assert_eq!(get_image_info(&short), Err(ImageParseError::ReadFailed));
    let overrun = image((1, 0, 0, 0), 4, &[(0x10, known_hash().to_vec()), (0x20, vec![0; 10])]);
    let mut overrun = overrun;
    let at = 32 + 4 + 2;
    overrun[at] -= 3;
    assert_eq!(get_image_info(&overrun), Err(ImageParseError::ReadFailed));

    // a declared size too small for the info block itself
    let mut tiny = exact.clone();
    tiny[34] = 3;
    assert_eq!(get_image_info(&tiny), Err(ImageParseError::ReadFailed));
    // the info block alone: an area without entries, so without a hash
    tiny[34] = 4;
    assert_eq!(get_image_info(&tiny), Err(ImageParseError::IdHashMissing));
}
