use ollama_tool::endpoint::Operation;
use ollama_tool::error::OllamaError;
use ollama_tool::shape::{DecodeError, Fault, Field, Place, ShapeError};

#[test]
fn places_are_written_as_paths() {
    assert_eq!(Place::Document.path_text(), "document");
    assert_eq!(Place::Models.path_text(), "models");
    assert_eq!(Place::Entry(0).path_text(), "models[0]");
    assert_eq!(Place::Entry(12).path_text(), "models[12]");
    assert_eq!(Place::Member(3, Field::Size).path_text(), "models[3].size");
    assert_eq!(
        Place::Member(0, Field::QuantizationLevel).path_text(),
        "models[0].details.quantization_level"
    );
}

#[test]
fn every_field_has_its_key_and_its_path() {
    let fields = [
        (Field::Name, "name", "models[7].name"),
        (Field::Model, "model", "models[7].model"),
        (Field::ModifiedAt, "modified_at", "models[7].modified_at"),
        (Field::Size, "size", "models[7].size"),
        (Field::Digest, "digest", "models[7].digest"),
        (Field::Details, "details", "models[7].details"),
        (Field::ParentModel, "parent_model", "models[7].details.parent_model"),
        (Field::Format, "format", "models[7].details.format"),
        (Field::Family, "family", "models[7].details.family"),
        (Field::Families, "families", "models[7].details.families"),
        (Field::ParameterSize, "parameter_size", "models[7].details.parameter_size"),
        (Field::QuantizationLevel, "quantization_level", "models[7].details.quantization_level"),
    ];
    for (field, key, path) in fields {
        assert_eq!(field.name(), key);
        assert_eq!(Place::Member(7, field).path_text(), path);
    }
}

#[test]
fn a_missing_member_is_said_so() {
    let e = ShapeError { place: Place::Member(1, Field::Digest), fault: Fault::Missing };
    assert_eq!(e.message(), "missing field `models[1].digest`");
    let e = ShapeError { place: Place::Models, fault: Fault::Missing };
    assert_eq!(e.message(), "missing field `models`");
}

#[test]
fn a_mistyped_value_is_said_so() {
    let e = ShapeError { place: Place::Member(0, Field::Size), fault: Fault::Mistyped };
    assert_eq!(e.message(), "invalid type at `models[0].size`");
    let e = ShapeError { place: Place::Document, fault: Fault::Mistyped };
    assert_eq!(e.message(), "invalid type at `document`");
    let e = ShapeError { place: Place::Entry(2), fault: Fault::Mistyped };
    assert_eq!(e.message(), "invalid type at `models[2]`");
}

#[test]
fn a_decode_error_says_what_its_cause_says() {
    assert_eq!(DecodeError::Syntax("expected value".to_string()).message(), "expected value");
    let shape = ShapeError { place: Place::Models, fault: Fault::Mistyped };
    assert_eq!(DecodeError::Shape(shape).message(), "invalid type at `models`");
}

#[test]
fn a_connection_error_keeps_its_cause() {
    let e = OllamaError::ConnectionError("connection refused".to_string());
    for op in [Operation::StatusCheck, Operation::RunningModels, Operation::AvailableModels] {
        assert_eq!(e.message(op), "Failed to connect to Ollama: connection refused");
    }
}

#[test]
fn a_status_error_is_worded_for_its_operation() {
    let e = OllamaError::HttpStatusError(404);
    assert_eq!(
        e.message(Operation::StatusCheck),
        "Ollama is not running. Received status: 404 Not Found"
    );
    assert_eq!(
        e.message(Operation::RunningModels),
        "Failed to retrieve running models. Received status: 404 Not Found"
    );
    assert_eq!(
        e.message(Operation::AvailableModels),
        "Failed to retrieve available models. Received status: 404 Not Found"
    );
    assert_eq!(
        OllamaError::HttpStatusError(500).message(Operation::AvailableModels),
        "Failed to retrieve available models. Received status: 500 Internal Server Error"
    );
}

#[test]
fn a_body_read_error_keeps_its_cause() {
    let e = OllamaError::BodyReadError("connection reset".to_string());
    for op in [Operation::StatusCheck, Operation::RunningModels, Operation::AvailableModels] {
        assert_eq!(e.message(op), "Failed to read response text: connection reset");
    }
}

#[test]
fn a_decode_error_is_worded_with_its_place() {
    let shape = ShapeError { place: Place::Member(0, Field::Size), fault: Fault::Mistyped };
    let e = OllamaError::DecodeError(DecodeError::Shape(shape));
    assert_eq!(
        e.message(Operation::AvailableModels),
        "Failed to read response text: invalid type at `models[0].size`"
    );
    let e = OllamaError::DecodeError(DecodeError::Syntax("EOF while parsing".to_string()));
    assert_eq!(
        e.message(Operation::AvailableModels),
        "Failed to read response text: EOF while parsing"
    );
}
