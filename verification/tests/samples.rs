use ads131m::sample_grab::SampleGrab;
use ads131m::Error;

#[test]
fn sample_to_ints() {
    assert_eq!(
        SampleGrab {
            data: vec![[0x7F, 0xFF, 0xFF]]
        }
        .into_i32_array(),
        [8_388_607]
    );
    assert_eq!(
        SampleGrab {
            data: vec![[0x00, 0x00, 0x01]]
        }
        .into_i32_array(),
        [1]
    );
    assert_eq!(
        SampleGrab {
            data: vec![[0x00, 0x00, 0x00]]
        }
        .into_i32_array(),
        [0]
    );
    assert_eq!(
        SampleGrab {
            data: vec![[0xFF, 0xFF, 0xFF]]
        }
        .into_i32_array(),
        [-1]
    );
    assert_eq!(
        SampleGrab {
            data: vec![[0x80, 0x00, 0x00]]
        }
        .into_i32_array(),
        [-8_388_608]
    );
}

#[test]
fn sample_to_i24s() {
    let grab = SampleGrab {
        data: vec![[0x7F, 0xFF, 0xFF], [0x80, 0x00, 0x00], [0xFF, 0xFF, 0xFE]],
    };
    let values = grab.into_i24_array();
    assert_eq!(values.len(), 3);
    assert_eq!(values[0].get(), 8_388_607);
    assert_eq!(values[1].get(), -8_388_608);
    assert_eq!(values[2].get(), -2);
}

#[test]
fn sample_bytes_accessors() {
    let grab = SampleGrab {
        data: vec![[1, 2, 3], [4, 5, 6]],
    };
    assert_eq!(grab.as_bytes(), &vec![[1, 2, 3], [4, 5, 6]]);
    assert_eq!(grab.to_bytes(), vec![[1, 2, 3], [4, 5, 6]]);
}

#[test]
fn flat_bytes_round_trip() {
    let grab = SampleGrab {
        data: vec![[0x11, 0x22, 0x33], [0x44, 0x55, 0x66]],
    };
    let flat = grab.to_flat_bytes();
    assert_eq!(flat, vec![0x11, 0x22, 0x33, 0x44, 0x55, 0x66]);
    assert_eq!(SampleGrab::from_flat_bytes(&flat, 2), Ok(grab));
}

#[test]
fn flat_bytes_length_mismatch() {
    let flat = vec![0x11, 0x22, 0x33, 0x44, 0x55];
    assert_eq!(
        SampleGrab::from_flat_bytes(&flat, 2),
        Err(Error::LengthMismatch)
    );
    let flat = vec![0x11, 0x22, 0x33];
    assert_eq!(
        SampleGrab::from_flat_bytes(&flat, 2),
        Err(Error::LengthMismatch)
    );
    assert_eq!(
        SampleGrab::from_flat_bytes(&vec![], 0),
        Ok(SampleGrab { data: vec![] })
    );
}
