use bitarray_naive::{BitArray, ONE_BYTE_BITS_COUNT};

#[test]
fn test_init_bitarray() {
    // Bit array size is a number of bits that will be allocated
    // in a given bitarray.
    // Bit array based on the vector of u8 integers
    // Each u8 integer occupy 8 bits of memory.
    // So the bitarray's vector should be of bitarray_size size / 8 size.
    let bitarray_size: i64 = 10;

    let bitarray: BitArray = BitArray::new(bitarray_size);

    assert_eq!(
        bitarray.bit_array.len(),
        (bitarray_size / ONE_BYTE_BITS_COUNT as i64) as usize + 1
    );
    assert_eq!(bitarray.bit_array.len(), 2);
}

#[test]
fn test_bitarray_set_true() {
    let bitarray_size: i64 = 10;
    let bitarray_position: i64 = 9;

    let mut bitarray: BitArray = BitArray::new(bitarray_size);

    let success: bool = match bitarray.set(bitarray_position, true) {
        Ok(_) => true,
        Err(_) => false,
    };

    assert!(success);
}

#[test]
fn test_bitarray_set_with_error() {
    let bitarray_size: i64 = 10;
    let bitarray_position: i64 = 10;

    let mut bitarray: BitArray = BitArray::new(bitarray_size);

    let success: bool = match bitarray.set(bitarray_position, true) {
        Ok(_) => false,
        Err(err) => {
            err.bitarray_position == 10
                && err.bitarray_size == 10
                && err.to_string() == "Given position: 10 is out of the bitarray size 10."
        }
    };

    assert!(success);
}

#[test]
fn test_bitarray_get_with_error() {
    let bitarray_size: i64 = 10;
    let bitarray_position: i64 = 10;

    let bitarray: BitArray = BitArray::new(bitarray_size);

    let success: bool = match bitarray.get(bitarray_position) {
        Ok(_) => false,
        Err(err) => {
            err.bitarray_position == 10
                && err.bitarray_size == 10
                && err.to_string() == "Given position: 10 is out of the bitarray size 10."
        }
    };

    assert!(success);
}

#[test]
fn test_bit_array_get_set() {
    let bitarray_size: i64 = 74845;

    let mut bitarray: BitArray = BitArray::new(bitarray_size);

    for bitarray_position in 0..bitarray_size - 1 {
        assert!(!bitarray.get(bitarray_position).unwrap());
    }

    for bitarray_position in 0..bitarray_size {
        bitarray.set(bitarray_position, true).unwrap();

        assert!(bitarray.get(bitarray_position).unwrap());
    }

    for bitarray_position in 0..bitarray_size - 1 {
        assert!(bitarray.get(bitarray_position).unwrap());
    }

    for bitarray_position in 0..bitarray_size {
        bitarray.set(bitarray_position, false).unwrap();

        assert!(!bitarray.get(bitarray_position).unwrap());
    }

    for bitarray_position in 0..bitarray_size - 1 {
        assert!(!bitarray.get(bitarray_position).unwrap());
    }
}
