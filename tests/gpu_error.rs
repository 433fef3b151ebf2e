use pairing_compat::GPUError;

#[test]
fn descriptions() {
    assert_eq!(GPUError::GPUTaken.description(), "GPU taken by a high priority process!");
    assert_eq!(GPUError::Msg("x".to_string()).description(), "GPU related error happened!");
}

#[test]
fn messages() {
    assert_eq!(GPUError::GPUTaken.message(), "GPU taken by a high priority process!");
    assert_eq!(GPUError::Msg("device lost".to_string()).message(), "device lost");
}
