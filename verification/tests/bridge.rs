use vectorc::bridge::{
    accept_decoded_module, check_ir_json_payload, validate_ir_json_output_contract, validate_z_input_contract,
    z_input_shape_matches_contract, ContractError, GraphPort, PortType, ShapeError, TensorElem,
};
use vectorc::{validate_module, DecodeError, GoldenLatentDecoder, LatentDecoder, StubLatentDecoder, EMBEDDING_DIM};

#[test]
fn golden_returns_valid_add_ir() {
    let z = vec![0.0f32; EMBEDDING_DIM];
    let m = GoldenLatentDecoder.decode_z_len(z.len()).expect("golden decode");
    validate_module(&m).expect("validate golden IR");
    assert_eq!(m.export_name, "run");
}

#[test]
fn latent_decoder_default_expected_z_len_matches_embedding_dim() {
    assert_eq!(StubLatentDecoder.expected_z_len(), EMBEDDING_DIM);
}

#[test]
fn stub_rejects_wrong_embedding_dim() {
    let err = StubLatentDecoder.decode_z_len([0.0f32; 4].len()).unwrap_err();
    assert!(err.message().contains(&format!("expected z.len() == {}", EMBEDDING_DIM)), "{}", err.message());
}

#[test]
fn stub_fails_with_correct_dim() {
    let z = vec![0.0f32; EMBEDDING_DIM];
    let err = StubLatentDecoder.decode_z_len(z.len()).unwrap_err();
    assert!(err.message().contains("StubLatentDecoder"), "{}", err.message());
}

#[test]
fn golden_rejects_wrong_length() {
    assert_eq!(
        GoldenLatentDecoder.decode_z_len(3).unwrap_err(),
        DecodeError::WrongLength { expected: EMBEDDING_DIM, got: 3 }
    );
    assert_eq!(DecodeError::WrongLength { expected: 256, got: 3 }.message(), "expected z.len() == 256, got 3");
}

#[test]
fn z_shape_contract() {
    assert_eq!(z_input_shape_matches_contract(&[256], 256), Ok(()));
    assert_eq!(z_input_shape_matches_contract(&[-1], 256), Ok(()));
    assert_eq!(z_input_shape_matches_contract(&[1, 256], 256), Ok(()));
    assert_eq!(z_input_shape_matches_contract(&[-1, -1], 256), Ok(()));
    let fixed = z_input_shape_matches_contract(&[4], 256).unwrap_err();
    assert_eq!(fixed, ShapeError::FixedDim { shape: vec![4], expected: 256, dim: 4 });
    assert_eq!(fixed.message(), "decoder input \"z\" shape [4] must have 256 elements (got fixed dim 4)");
    let batch = z_input_shape_matches_contract(&[2, 256], 256).unwrap_err();
    assert_eq!(batch.message(), "decoder input \"z\" batch dimension must be 1 or dynamic (-1), got [2, 256]");
    let latent = z_input_shape_matches_contract(&[1, 8], 256).unwrap_err();
    assert_eq!(latent.message(), "decoder input \"z\" shape [1, 8] must end with latent dim 256 (got 8)");
    let rank = z_input_shape_matches_contract(&[1, 1, 256], 256).unwrap_err();
    assert_eq!(rank.message(), "decoder input \"z\" must be rank-1 `[256]` or rank-2 `[1, 256]` (got shape [1, 1, 256])");
}

fn port(name: &str, port_type: PortType) -> GraphPort {
    GraphPort { name: name.into(), port_type }
}

#[test]
fn decoder_graph_contract() {
    let z = port("z", PortType::Tensor { elem: TensorElem::Float32, shape: vec![1, 256] });
    assert_eq!(validate_z_input_contract(&[z.clone()], 256), Ok(()));
    let missing = validate_z_input_contract(&[port("x", PortType::Other("Sequence".into()))], 256).unwrap_err();
    assert_eq!(missing.message(), "decoder ONNX model must declare an input tensor named \"z\"; got [\"x\"]");
    let ints = port("z", PortType::Tensor { elem: TensorElem::Other("Int64".into()), shape: vec![256] });
    assert_eq!(
        validate_z_input_contract(&[ints], 256).unwrap_err().message(),
        "decoder input \"z\" must be an f32 tensor (got element type Int64)"
    );
    let narrow = port("z", PortType::Tensor { elem: TensorElem::Float32, shape: vec![8] });
    assert!(matches!(validate_z_input_contract(&[narrow], 256), Err(ContractError::InputShape(ShapeError::FixedDim { .. }))));
    let out = port("program_ir_json", PortType::Tensor { elem: TensorElem::Uint8, shape: vec![-1] });
    assert_eq!(validate_ir_json_output_contract(&[z.clone(), out]), Ok(()));
    let floats = port("program_ir_json", PortType::Tensor { elem: TensorElem::Float32, shape: vec![-1] });
    assert_eq!(
        validate_ir_json_output_contract(&[floats]).unwrap_err().message(),
        "decoder output \"program_ir_json\" must be a uint8 tensor (got element type Float32)"
    );
    assert_eq!(
        validate_ir_json_output_contract(&[z]).unwrap_err().message(),
        "decoder ONNX model must declare output tensor \"program_ir_json\" (UTF-8 Program IR JSON); got [\"z\"]"
    );
}

#[test]
fn decoder_output_checks() {
    assert_eq!(check_ir_json_payload(16), Ok(()));
    assert_eq!(check_ir_json_payload(16 * 1024 * 1024 + 1).unwrap_err().message(), "\"program_ir_json\" payload too large: 16777217 bytes (max 16777216)");
    assert!(matches!(accept_decoded_module(Err("eof".into())), Err(ContractError::InvalidJson(_))));
    let golden = GoldenLatentDecoder.decode_z_len(EMBEDDING_DIM).expect("golden");
    assert_eq!(accept_decoded_module(Ok(golden.clone())), Ok(golden.clone()));
    let mut broken = golden;
    broken.func.body.pop();
    assert!(matches!(accept_decoded_module(Ok(broken)), Err(ContractError::Invalid(_))));
}

#[test]
fn ort_expected_z_len_matches_workspace_contract() {
    assert_eq!(vectorc::OrtLatentDecoder::new().expected_z_len(), EMBEDDING_DIM);
}

#[test]
fn ort_rejects_wrong_z_len_without_loading_session() {
    let dec = vectorc::OrtLatentDecoder::with_model_path("/nonexistent/model.onnx");
    let z = [0.0f32; 4];
    let msg = dec.decode_z_len(z.len()).unwrap_err().message();
    assert!(msg.contains("expected z.len()"), "expected dimension error, got: {msg}");
    assert!(!msg.contains("model.onnx"), "wrong-len path must not mention model path or session: {msg}");
}

#[test]
fn ort_fails_closed_without_model_path() {
    let dec = vectorc::OrtLatentDecoder::new();
    let z = vec![0.0f32; EMBEDDING_DIM];
    let msg = dec.decode_z_len(z.len()).unwrap_err().message();
    assert!(msg.contains("no ONNX model path"), "got: {msg}");
}

#[test]
fn z_length_beyond_i64_is_an_error() {
    if usize::MAX as u128 > i64::MAX as u128 {
        let e = z_input_shape_matches_contract(&[256], usize::MAX).unwrap_err();
        assert_eq!(e, ShapeError::LengthOutOfRange);
        assert_eq!(e.message(), "expected z length does not fit i64");
    }
}
