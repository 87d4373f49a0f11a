use esp32_logger::{AlreadyInitialized, TransmitCell};

#[test]
fn cell_starts_empty_and_skips_the_action() {
    let mut cell: TransmitCell<Vec<u8>> = TransmitCell::new();
    assert!(!cell.is_populated());
    let mut ran = false;
    cell.with_transmit(|_tx: &mut Vec<u8>| ran = true);
    assert!(!ran);
    assert!(!cell.is_populated());
}

#[test]
fn cell_is_filled_once() {
    let mut cell: TransmitCell<Vec<u8>> = TransmitCell::new();
    assert_eq!(cell.initialize(vec![1]), Ok(()));
    assert!(cell.is_populated());
    assert_eq!(cell.initialize(vec![2]), Err(AlreadyInitialized));
    assert_eq!(cell.initialize(vec![3]), Err(AlreadyInitialized));
    let mut seen = Vec::new();
    cell.with_transmit(|tx: &mut Vec<u8>| seen = tx.clone());
    assert_eq!(seen, vec![1]);
}

#[test]
fn action_changes_the_handle_in_place() {
    let mut cell: TransmitCell<Vec<u8>> = TransmitCell::new();
    assert_eq!(cell.initialize(Vec::new()), Ok(()));
    cell.with_transmit(|tx: &mut Vec<u8>| tx.extend_from_slice(b"AAAA"));
    cell.with_transmit(|tx: &mut Vec<u8>| tx.extend_from_slice(b"BBBB"));
    let mut seen = Vec::new();
    cell.with_transmit(|tx: &mut Vec<u8>| seen = tx.clone());
    assert_eq!(seen, b"AAAABBBB".to_vec());
    assert!(cell.is_populated());
}
