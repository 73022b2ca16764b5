//! The model list as JSON: the shape the daemon answers in, read and written.
//!
//! The document is an object whose member `models` is an array. Each entry
//! is an object with the texts `name`, `model`, `modified_at` and `digest`,
//! the unsigned number `size`, and the object `details`; `details` has the
//! texts `parent_model`, `format`, `family`, `parameter_size` and
//! `quantization_level`, and may have `families`, an array of texts or
//! `null`. Other members are passed over. Where a key stands twice in an
//! object, the first one counts; a document that was parsed from text
//! holds each key once.

use crate::json::{
    item_views, json_of, lemma_array_view, lemma_object_view, member_views, parse_json, Json,
    JsonView,
};
use crate::model::{model_views, Detail, DetailView, Model, ModelView, Models, ModelsView};
use crate::shape::{DecodeError, DecodeErrorView, Fault, Field, Place, ShapeError};
use crate::text::texts;
use vstd::prelude::*;
use vstd::string::StringExecFns;

verus! {

/// The first member under `key` at or after position `from`.
pub open spec fn member_from(
    members: Seq<(Seq<char>, JsonView)>,
    key: Seq<char>,
    from: int,
) -> Option<JsonView>
    decreases members.len() - from,
{
    if from < 0 || from >= members.len() {
        None
    } else if members[from].0 == key {
        Some(members[from].1)
    } else {
        member_from(members, key, from + 1)
    }
}

/// The first member of an object under `key`.
pub open spec fn member(members: Seq<(Seq<char>, JsonView)>, key: Seq<char>) -> Option<JsonView> {
    member_from(members, key, 0)
}

/// The error that reports `fault` at `field` of entry `entry`.
pub open spec fn fault_at(entry: usize, field: Field, fault: Fault) -> ShapeError {
    ShapeError { place: Place::Member(entry, field), fault }
}

/// A member that must be a text.
pub open spec fn text_at(members: Seq<(Seq<char>, JsonView)>, entry: usize, field: Field) -> Result<
    Seq<char>,
    ShapeError,
> {
    match member(members, field.key()) {
        None => Err(fault_at(entry, field, Fault::Missing)),
        Some(JsonView::Text(text)) => Ok(text),
        Some(_) => Err(fault_at(entry, field, Fault::Mistyped)),
    }
}

/// A member that must be an unsigned number.
pub open spec fn unsigned_at(
    members: Seq<(Seq<char>, JsonView)>,
    entry: usize,
    field: Field,
) -> Result<u64, ShapeError> {
    match member(members, field.key()) {
        None => Err(fault_at(entry, field, Fault::Missing)),
        Some(JsonView::Number(Some(n))) => Ok(n),
        Some(_) => Err(fault_at(entry, field, Fault::Mistyped)),
    }
}

/// Every item is a text.
pub open spec fn all_text(items: Seq<JsonView>) -> bool {
    forall|i: int| 0 <= i < items.len() ==> (#[trigger] items[i]) is Text
}

/// The texts that the items hold, in order.
pub open spec fn tags_of(items: Seq<JsonView>) -> Seq<Seq<char>> {
    items.map_values(|item: JsonView| item->Text_0)
}

/// The member `families`: absent and `null` both mean no list; else it
/// must be an array of texts.
pub open spec fn families_at(members: Seq<(Seq<char>, JsonView)>, entry: usize) -> Result<
    Option<Seq<Seq<char>>>,
    ShapeError,
> {
    match member(members, Field::Families.key()) {
        None => Ok(None),
        Some(JsonView::Null) => Ok(None),
        Some(JsonView::Array(items)) => if all_text(items) {
            Ok(Some(tags_of(items)))
        } else {
            Err(fault_at(entry, Field::Families, Fault::Mistyped))
        },
        Some(_) => Err(fault_at(entry, Field::Families, Fault::Mistyped)),
    }
}

/// The metadata that the value `json` describes, as `details` of entry
/// `entry`; or the first member, in the order of the shape, that is
/// missing or mistyped.
pub open spec fn detail_of(json: JsonView, entry: usize) -> Result<DetailView, ShapeError> {
    match json {
        JsonView::Object(members) => {
            let parent_model = text_at(members, entry, Field::ParentModel);
            let format = text_at(members, entry, Field::Format);
            let family = text_at(members, entry, Field::Family);
            let families = families_at(members, entry);
            let parameter_size = text_at(members, entry, Field::ParameterSize);
            let quantization_level = text_at(members, entry, Field::QuantizationLevel);
            if parent_model is Err {
                Err(parent_model->Err_0)
            } else if format is Err {
                Err(format->Err_0)
            } else if family is Err {
                Err(family->Err_0)
            } else if families is Err {
                Err(families->Err_0)
            } else if parameter_size is Err {
                Err(parameter_size->Err_0)
            } else if quantization_level is Err {
                Err(quantization_level->Err_0)
            } else {
                Ok(
                    DetailView {
                        parent_model: parent_model->Ok_0,
                        format: format->Ok_0,
                        family: family->Ok_0,
                        families: families->Ok_0,
                        parameter_size: parameter_size->Ok_0,
                        quantization_level: quantization_level->Ok_0,
                    },
                )
            }
        },
        _ => Err(fault_at(entry, Field::Details, Fault::Mistyped)),
    }
}

/// The member `details` of an entry.
pub open spec fn details_at(members: Seq<(Seq<char>, JsonView)>, entry: usize) -> Result<
    DetailView,
    ShapeError,
> {
    match member(members, Field::Details.key()) {
        None => Err(fault_at(entry, Field::Details, Fault::Missing)),
        Some(json) => detail_of(json, entry),
    }
}

/// The model that the value `json` describes, as entry `entry` of the
/// list; or the first member, in the order of the shape, that is missing or
/// mistyped.
pub open spec fn model_of(json: JsonView, entry: usize) -> Result<ModelView, ShapeError> {
    match json {
        JsonView::Object(members) => {
            let name = text_at(members, entry, Field::Name);
            let model = text_at(members, entry, Field::Model);
            let modified_at = text_at(members, entry, Field::ModifiedAt);
            let size = unsigned_at(members, entry, Field::Size);
            let digest = text_at(members, entry, Field::Digest);
            let details = details_at(members, entry);
            if name is Err {
                Err(name->Err_0)
            } else if model is Err {
                Err(model->Err_0)
            } else if modified_at is Err {
                Err(modified_at->Err_0)
            } else if size is Err {
                Err(size->Err_0)
            } else if digest is Err {
                Err(digest->Err_0)
            } else if details is Err {
                Err(details->Err_0)
            } else {
                Ok(
                    ModelView {
                        name: name->Ok_0,
                        model: model->Ok_0,
                        modified_at: modified_at->Ok_0,
                        size: size->Ok_0,
                        digest: digest->Ok_0,
                        details: details->Ok_0,
                    },
                )
            }
        },
        _ => Err(ShapeError { place: Place::Entry(entry), fault: Fault::Mistyped }),
    }
}

/// The models that the first `upto` entries describe, in order; or the
/// error of the first entry that describes none.
pub open spec fn entries_of(items: Seq<JsonView>, upto: int) -> Result<Seq<ModelView>, ShapeError>
    decreases upto,
{
    if upto <= 0 {
        Ok(Seq::empty())
    } else {
        match entries_of(items, upto - 1) {
            Err(e) => Err(e),
            Ok(models) => match model_of(items[upto - 1], (upto - 1) as usize) {
                Err(e) => Err(e),
                Ok(model) => Ok(models.push(model)),
            },
        }
    }
}

/// The model list that the document `json` describes.
pub open spec fn models_of(json: JsonView) -> Result<ModelsView, ShapeError> {
    match json {
        JsonView::Object(members) => match member(members, "models"@) {
            None => Err(ShapeError { place: Place::Models, fault: Fault::Missing }),
            Some(JsonView::Array(items)) => match entries_of(items, items.len() as int) {
                Ok(models) => Ok(ModelsView { models }),
                Err(e) => Err(e),
            },
            Some(_) => Err(ShapeError { place: Place::Models, fault: Fault::Mistyped }),
        },
        _ => Err(ShapeError { place: Place::Document, fault: Fault::Mistyped }),
    }
}

/// The model list that a body describes: the body must be JSON, and the
/// JSON must have the shape.
pub open spec fn body_models(body: Seq<u8>) -> Result<ModelsView, DecodeErrorView> {
    match json_of(body) {
        Err(complaint) => Err(DecodeErrorView::Syntax(complaint)),
        Ok(json) => match models_of(json) {
            Ok(models) => Ok(models),
            Err(e) => Err(DecodeErrorView::Shape(e)),
        },
    }
}

/// Finds the first member under `key`.
fn find<'a>(members: &'a Vec<(String, Json)>, key: &str) -> (found: Option<&'a Json>)
    ensures
        match found {
            Some(json) => member(member_views(members@), key@) == Some(json@),
            None => member(member_views(members@), key@) is None,
        },
{
    let wanted: String = String::from_str(key);
    let mut i: usize = 0;
    while i < members.len()
        invariant
            i <= members.len(),
            wanted@ == key@,
            member(member_views(members@), key@) == member_from(
                member_views(members@),
                key@,
                i as int,
            ),
        decreases members.len() - i,
    {
        if members[i].0 == wanted {
            return Some(&members[i].1);
        }
        i += 1;
    }
    None
}

fn need_text(members: &Vec<(String, Json)>, entry: usize, field: Field) -> (r: Result<
    String,
    ShapeError,
>)
    ensures
        match r {
            Ok(text) => text_at(member_views(members@), entry, field) == Ok::<
                Seq<char>,
                ShapeError,
            >(text@),
            Err(e) => text_at(member_views(members@), entry, field) == Err::<
                Seq<char>,
                ShapeError,
            >(e),
        },
{
    match find(members, field.name()) {
        None => Err(ShapeError { place: Place::Member(entry, field), fault: Fault::Missing }),
        Some(Json::Text(text)) => Ok(text.clone()),
        Some(_) => Err(ShapeError { place: Place::Member(entry, field), fault: Fault::Mistyped }),
    }
}

fn need_unsigned(members: &Vec<(String, Json)>, entry: usize, field: Field) -> (r: Result<
    u64,
    ShapeError,
>)
    ensures
        r == unsigned_at(member_views(members@), entry, field),
{
    match find(members, field.name()) {
        None => Err(ShapeError { place: Place::Member(entry, field), fault: Fault::Missing }),
        Some(Json::Number(Some(n))) => Ok(*n),
        Some(_) => Err(ShapeError { place: Place::Member(entry, field), fault: Fault::Mistyped }),
    }
}

fn need_families(members: &Vec<(String, Json)>, entry: usize) -> (r: Result<
    Option<Vec<String>>,
    ShapeError,
>)
    ensures
        match r {
            Ok(Some(tags)) => families_at(member_views(members@), entry) == Ok::<
                Option<Seq<Seq<char>>>,
                ShapeError,
            >(Some(texts(tags@))),
            Ok(None) => families_at(member_views(members@), entry) == Ok::<
                Option<Seq<Seq<char>>>,
                ShapeError,
            >(None),
            Err(e) => families_at(member_views(members@), entry) == Err::<
                Option<Seq<Seq<char>>>,
                ShapeError,
            >(e),
        },
{
    match find(members, Field::Families.name()) {
        None => Ok(None),
        Some(Json::Null) => Ok(None),
        Some(Json::Array(items)) => {
            proof {
                lemma_array_view(*items);
            }
            let ghost trees = item_views(items@);
            let mut tags: Vec<String> = Vec::new();
            let mut i: usize = 0;
            while i < items.len()
                invariant
                    i <= items.len(),
                    trees == item_views(items@),
                    member(member_views(members@), Field::Families.key()) == Some(
                        JsonView::Array(trees),
                    ),
                    forall|k: int| 0 <= k < i ==> (#[trigger] trees[k]) is Text,
                    texts(tags@) == tags_of(trees).subrange(0, i as int),
                decreases items.len() - i,
            {
                match &items[i] {
                    Json::Text(tag) => {
                        let ghost before = texts(tags@);
                        tags.push(tag.clone());
                        assert(texts(tags@) =~= before.push(tag@));
                    },
                    _ => {
                        assert(!(trees[i as int] is Text));
                        return Err(
                            ShapeError {
                                place: Place::Member(entry, Field::Families),
                                fault: Fault::Mistyped,
                            },
                        );
                    },
                }
                i += 1;
            }
            assert(tags_of(trees).subrange(0, i as int) =~= tags_of(trees));
            Ok(Some(tags))
        },
        Some(_) => Err(
            ShapeError { place: Place::Member(entry, Field::Families), fault: Fault::Mistyped },
        ),
    }
}

/// Reads the metadata of entry `entry` from the value of its `details`.
pub fn decode_detail(json: &Json, entry: usize) -> (r: Result<Detail, ShapeError>)
    ensures
        match r {
            Ok(detail) => detail_of(json@, entry) == Ok::<DetailView, ShapeError>(detail@),
            Err(e) => detail_of(json@, entry) == Err::<DetailView, ShapeError>(e),
        },
{
    match json {
        Json::Object(members) => {
            proof {
                lemma_object_view(*members);
            }
            let parent_model: String = need_text(members, entry, Field::ParentModel)?;
            let format: String = need_text(members, entry, Field::Format)?;
            let family: String = need_text(members, entry, Field::Family)?;
            let families: Option<Vec<String>> = need_families(members, entry)?;
            let parameter_size: String = need_text(members, entry, Field::ParameterSize)?;
            let quantization_level: String = need_text(members, entry, Field::QuantizationLevel)?;
            Ok(
                Detail {
                    parent_model,
                    format,
                    family,
                    families,
                    parameter_size,
                    quantization_level,
                },
            )
        },
        _ => Err(
            ShapeError { place: Place::Member(entry, Field::Details), fault: Fault::Mistyped },
        ),
    }
}

/// Reads the model that entry `entry` of the list describes.
pub fn decode_model(json: &Json, entry: usize) -> (r: Result<Model, ShapeError>)
    ensures
        match r {
            Ok(model) => model_of(json@, entry) == Ok::<ModelView, ShapeError>(model@),
            Err(e) => model_of(json@, entry) == Err::<ModelView, ShapeError>(e),
        },
{
    match json {
        Json::Object(members) => {
            proof {
                lemma_object_view(*members);
            }
            let name: String = need_text(members, entry, Field::Name)?;
            let model: String = need_text(members, entry, Field::Model)?;
            let modified_at: String = need_text(members, entry, Field::ModifiedAt)?;
            let size: u64 = need_unsigned(members, entry, Field::Size)?;
            let digest: String = need_text(members, entry, Field::Digest)?;
            let details: Detail = match find(members, Field::Details.name()) {
                None => {
                    return Err(
                        ShapeError {
                            place: Place::Member(entry, Field::Details),
                            fault: Fault::Missing,
                        },
                    );
                },
                Some(value) => decode_detail(value, entry)?,
            };
            Ok(Model { name, model, modified_at, size, digest, details })
        },
        _ => Err(ShapeError { place: Place::Entry(entry), fault: Fault::Mistyped }),
    }
}

/// Reads the model list that a document describes.
///
/// Succeeds exactly where the document has the shape; the models then come
/// in the order of the document, each member as the document has it. Else
/// the error names the first place that falls short.
pub fn decode_models(json: &Json) -> (r: Result<Models, ShapeError>)
    ensures
        match r {
            Ok(models) => models_of(json@) == Ok::<ModelsView, ShapeError>(models@),
            Err(e) => models_of(json@) == Err::<ModelsView, ShapeError>(e),
        },
{
    match json {
        Json::Object(members) => {
            proof {
                lemma_object_view(*members);
            }
            match find(members, "models") {
                None => Err(ShapeError { place: Place::Models, fault: Fault::Missing }),
                Some(Json::Array(items)) => {
                    proof {
                        lemma_array_view(*items);
                    }
                    let ghost trees = item_views(items@);
                    let mut models: Vec<Model> = Vec::new();
                    let mut i: usize = 0;
                    assert(model_views(models@) =~= Seq::<ModelView>::empty());
                    while i < items.len()
                        invariant
                            i <= items.len(),
                            trees == item_views(items@),
                            json@ == JsonView::Object(member_views(members@)),
                            member(member_views(members@), "models"@) == Some(
                                JsonView::Array(trees),
                            ),
                            entries_of(trees, i as int) == Ok::<Seq<ModelView>, ShapeError>(
                                model_views(models@),
                            ),
                        decreases items.len() - i,
                    {
                        let ghost before = model_views(models@);
                        match decode_model(&items[i], i) {
                            Ok(model) => {
                                models.push(model);
                                assert(model_views(models@) =~= before.push(model@));
                            },
                            Err(e) => {
                                proof {
                                    lemma_entries_fail(trees, i as int + 1, items.len() as int);
                                }
                                return Err(e);
                            },
                        }
                        i += 1;
                    }
                    Ok(Models { models })
                },
                Some(_) => Err(ShapeError { place: Place::Models, fault: Fault::Mistyped }),
            }
        },
        _ => Err(ShapeError { place: Place::Document, fault: Fault::Mistyped }),
    }
}

/// Once an entry has failed, the list fails with the same error however
/// many entries follow.
proof fn lemma_entries_fail(items: Seq<JsonView>, failed: int, upto: int)
    requires
        0 <= failed <= upto,
        entries_of(items, failed) is Err,
    ensures
        entries_of(items, upto) == entries_of(items, failed),
    decreases upto - failed,
{
    if failed < upto {
        lemma_entries_fail(items, failed, upto - 1);
    }
}

/// Reads the model list from the body of a response.
///
/// Succeeds exactly where the body is JSON of the shape. There is no
/// partial result: a body that falls short anywhere gives an error.
pub fn decode_body(body: &[u8]) -> (r: Result<Models, DecodeError>)
    ensures
        match r {
            Ok(models) => body_models(body@) == Ok::<ModelsView, DecodeErrorView>(models@),
            Err(e) => body_models(body@) == Err::<ModelsView, DecodeErrorView>(e@),
        },
{
    match parse_json(body) {
        Err(complaint) => Err(DecodeError::Syntax(complaint)),
        Ok(json) => match decode_models(&json) {
            Ok(models) => Ok(models),
            Err(e) => Err(DecodeError::Shape(e)),
        },
    }
}

/// The metadata written as a JSON object, its members in the order of the
/// shape; an absent list of families is written as `null`.
pub open spec fn detail_json(detail: DetailView) -> JsonView {
    JsonView::Object(
        seq![
            (Field::ParentModel.key(), JsonView::Text(detail.parent_model)),
            (Field::Format.key(), JsonView::Text(detail.format)),
            (Field::Family.key(), JsonView::Text(detail.family)),
            (
                Field::Families.key(),
                match detail.families {
                    Some(tags) => JsonView::Array(
                        tags.map_values(|tag: Seq<char>| JsonView::Text(tag)),
                    ),
                    None => JsonView::Null,
                },
            ),
            (Field::ParameterSize.key(), JsonView::Text(detail.parameter_size)),
            (Field::QuantizationLevel.key(), JsonView::Text(detail.quantization_level)),
        ],
    )
}

/// The model written as a JSON object, its members in the order of the
/// shape.
pub open spec fn model_json(model: ModelView) -> JsonView {
    JsonView::Object(
        seq![
            (Field::Name.key(), JsonView::Text(model.name)),
            (Field::Model.key(), JsonView::Text(model.model)),
            (Field::ModifiedAt.key(), JsonView::Text(model.modified_at)),
            (Field::Size.key(), JsonView::Number(Some(model.size))),
            (Field::Digest.key(), JsonView::Text(model.digest)),
            (Field::Details.key(), detail_json(model.details)),
        ],
    )
}

/// The model list written as a JSON document.
pub open spec fn models_json(models: ModelsView) -> JsonView {
    JsonView::Object(
        seq![
            (
                "models"@,
                JsonView::Array(models.models.map_values(|model: ModelView| model_json(model))),
            ),
        ],
    )
}

fn text_member(field: Field, text: &String) -> (member: (String, Json))
    ensures
        member.0@ == field.key(),
        member.1@ == JsonView::Text(text@),
{
    (String::from_str(field.name()), Json::Text(text.clone()))
}

impl Detail {
    /// Writes the metadata as a JSON object.
    pub fn to_json(&self) -> (json: Json)
        ensures
            json@ == detail_json(self@),
    {
        let families: Json = match &self.families {
            None => Json::Null,
            Some(tags) => {
                let mut items: Vec<Json> = Vec::new();
                let mut i: usize = 0;
                let ghost wanted = texts(tags@).map_values(|tag: Seq<char>| JsonView::Text(tag));
                while i < tags.len()
                    invariant
                        i <= tags.len(),
                        wanted == texts(tags@).map_values(|tag: Seq<char>| JsonView::Text(tag)),
                        item_views(items@) == wanted.subrange(0, i as int),
                    decreases tags.len() - i,
                {
                    let ghost before = item_views(items@);
                    let item: Json = Json::Text(tags[i].clone());
                    items.push(item);
                    assert(item_views(items@) =~= before.push(JsonView::Text(tags@[i as int]@)));
                    i += 1;
                }
                assert(wanted.subrange(0, i as int) =~= wanted);
                proof {
                    lemma_array_view(items);
                }
                Json::Array(items)
            },
        };
        let mut members: Vec<(String, Json)> = Vec::new();
        members.push(text_member(Field::ParentModel, &self.parent_model));
        members.push(text_member(Field::Format, &self.format));
        members.push(text_member(Field::Family, &self.family));
        members.push((String::from_str(Field::Families.name()), families));
        members.push(text_member(Field::ParameterSize, &self.parameter_size));
        members.push(text_member(Field::QuantizationLevel, &self.quantization_level));
        proof {
            lemma_object_view(members);
            assert(member_views(members@) =~= detail_json(self@)->Object_0);
        }
        Json::Object(members)
    }
}

impl Model {
    /// Writes the model as a JSON object.
    pub fn to_json(&self) -> (json: Json)
        ensures
            json@ == model_json(self@),
    {
        let mut members: Vec<(String, Json)> = Vec::new();
        members.push(text_member(Field::Name, &self.name));
        members.push(text_member(Field::Model, &self.model));
        members.push(text_member(Field::ModifiedAt, &self.modified_at));
        members.push((String::from_str(Field::Size.name()), Json::Number(Some(self.size))));
        members.push(text_member(Field::Digest, &self.digest));
        members.push((String::from_str(Field::Details.name()), self.details.to_json()));
        proof {
            lemma_object_view(members);
            assert(member_views(members@) =~= model_json(self@)->Object_0);
        }
        Json::Object(members)
    }
}

impl Models {
    /// Writes the model list as a JSON document.
    pub fn to_json(&self) -> (json: Json)
        ensures
            json@ == models_json(self@),
    {
        let mut items: Vec<Json> = Vec::new();
        let mut i: usize = 0;
        let ghost wanted = self@.models.map_values(|model: ModelView| model_json(model));
        while i < self.models.len()
            invariant
                i <= self.models.len(),
                wanted == self@.models.map_values(|model: ModelView| model_json(model)),
                item_views(items@) == wanted.subrange(0, i as int),
            decreases self.models.len() - i,
        {
            let ghost before = item_views(items@);
            let item: Json = self.models[i].to_json();
            items.push(item);
            assert(item_views(items@) =~= before.push(model_json(self.models@[i as int]@)));
            i += 1;
        }
        assert(wanted.subrange(0, i as int) =~= wanted);
        let mut members: Vec<(String, Json)> = Vec::new();
        members.push((String::from_str("models"), Json::Array(items)));
        proof {
            lemma_array_view(items);
            lemma_object_view(members);
            assert(member_views(members@) =~= models_json(self@)->Object_0);
        }
        Json::Object(members)
    }
}

/// No two members of the shape share a key.
pub proof fn lemma_keys_differ()
    ensures
        forall|a: Field, b: Field| a != b ==> #[trigger] a.key() != #[trigger] b.key(),
{
    reveal_strlit("name");
    reveal_strlit("model");
    reveal_strlit("modified_at");
    reveal_strlit("size");
    reveal_strlit("digest");
    reveal_strlit("details");
    reveal_strlit("parent_model");
    reveal_strlit("format");
    reveal_strlit("family");
    reveal_strlit("families");
    reveal_strlit("parameter_size");
    reveal_strlit("quantization_level");
    assert forall|a: Field, b: Field| a != b implies #[trigger] a.key() != #[trigger] b.key() by {
        if a.key().len() == b.key().len() {
            assert(a.key()[0] != b.key()[0] || a.key()[1] != b.key()[1]);
        }
    }
}

/// A key that stands at position `at`, and nowhere before it, leads to the
/// value at that position.
pub proof fn lemma_member_at(members: Seq<(Seq<char>, JsonView)>, key: Seq<char>, at: int)
    requires
        0 <= at < members.len(),
        members[at].0 == key,
        forall|k: int| 0 <= k < at ==> (#[trigger] members[k]).0 != key,
    ensures
        member(members, key) == Some(members[at].1),
{
    lemma_member_from(members, key, at, 0);
}

proof fn lemma_member_from(members: Seq<(Seq<char>, JsonView)>, key: Seq<char>, at: int, from: int)
    requires
        0 <= from <= at < members.len(),
        members[at].0 == key,
        forall|k: int| 0 <= k < at ==> (#[trigger] members[k]).0 != key,
    ensures
        member_from(members, key, from) == Some(members[at].1),
    decreases at - from,
{
    if from < at {
        lemma_member_from(members, key, at, from + 1);
    }
}

/// Reading what was written gives the metadata back, whatever entry it is
/// read as.
pub proof fn lemma_detail_round_trip(detail: DetailView, entry: usize)
    ensures
        detail_of(detail_json(detail), entry) == Ok::<DetailView, ShapeError>(detail),
{
    lemma_keys_differ();
    let members = detail_json(detail)->Object_0;
    lemma_member_at(members, Field::ParentModel.key(), 0);
    lemma_member_at(members, Field::Format.key(), 1);
    lemma_member_at(members, Field::Family.key(), 2);
    lemma_member_at(members, Field::Families.key(), 3);
    lemma_member_at(members, Field::ParameterSize.key(), 4);
    lemma_member_at(members, Field::QuantizationLevel.key(), 5);
    match detail.families {
        Some(tags) => {
            let items = tags.map_values(|tag: Seq<char>| JsonView::Text(tag));
            assert(tags_of(items) =~= tags);
        },
        None => {},
    }
}

/// Reading what was written gives the model back, whatever entry it is
/// read as.
pub proof fn lemma_model_round_trip(model: ModelView, entry: usize)
    ensures
        model_of(model_json(model), entry) == Ok::<ModelView, ShapeError>(model),
{
    lemma_keys_differ();
    lemma_detail_round_trip(model.details, entry);
    let members = model_json(model)->Object_0;
    lemma_member_at(members, Field::Name.key(), 0);
    lemma_member_at(members, Field::Model.key(), 1);
    lemma_member_at(members, Field::ModifiedAt.key(), 2);
    lemma_member_at(members, Field::Size.key(), 3);
    lemma_member_at(members, Field::Digest.key(), 4);
    lemma_member_at(members, Field::Details.key(), 5);
}

proof fn lemma_entries_round_trip(models: Seq<ModelView>, upto: int)
    requires
        0 <= upto <= models.len(),
    ensures
        entries_of(models.map_values(|model: ModelView| model_json(model)), upto) == Ok::<
            Seq<ModelView>,
            ShapeError,
        >(models.subrange(0, upto)),
    decreases upto,
{
    if upto <= 0 {
        assert(models.subrange(0, upto) =~= Seq::<ModelView>::empty());
    } else {
        lemma_entries_round_trip(models, upto - 1);
        lemma_model_round_trip(models[upto - 1], (upto - 1) as usize);
        assert(models.subrange(0, upto) =~= models.subrange(0, upto - 1).push(models[upto - 1]));
    }
}

/// Round trip: a model list that is written as JSON and read again is the
/// same list, with every model in its place and every member as it was; so
/// its listing says the same.
pub proof fn lemma_round_trip(models: ModelsView)
    ensures
        models_of(models_json(models)) == Ok::<ModelsView, ShapeError>(models),
        models_of(models_json(models))->Ok_0.listing() == models.listing(),
{
    let members = models_json(models)->Object_0;
    lemma_member_at(members, "models"@, 0);
    lemma_entries_round_trip(models.models, models.models.len() as int);
    assert(models.models.subrange(0, models.models.len() as int) =~= models.models);
}

proof fn lemma_entries_in_order(items: Seq<JsonView>, upto: int)
    requires
        0 <= upto <= items.len(),
        entries_of(items, upto) is Ok,
    ensures
        entries_of(items, upto)->Ok_0.len() == upto,
        forall|i: int|
            0 <= i < upto ==> model_of(#[trigger] items[i], i as usize) == Ok::<
                ModelView,
                ShapeError,
            >(entries_of(items, upto)->Ok_0[i]),
    decreases upto,
{
    if upto > 0 {
        lemma_entries_in_order(items, upto - 1);
    }
}

/// Order: a document that is read as a model list has as many entries as
/// the list has models, and model `i` of the list is what entry `i` of the
/// document describes.
pub proof fn lemma_read_in_order(json: JsonView)
    requires
        models_of(json) is Ok,
    ensures
        json is Object,
        member(json->Object_0, "models"@) matches Some(JsonView::Array(items)) && {
            &&& models_of(json)->Ok_0.models.len() == items.len()
            &&& forall|i: int|
                0 <= i < items.len() ==> model_of(#[trigger] items[i], i as usize) == Ok::<
                    ModelView,
                    ShapeError,
                >(models_of(json)->Ok_0.models[i])
        },
{
    let items = member(json->Object_0, "models"@)->Some_0->Array_0;
    lemma_entries_in_order(items, items.len() as int);
}

/// Verbatim: a value that is read as a model gives each member of the
/// model as the value has it under the member's key.
pub proof fn lemma_model_verbatim(json: JsonView, entry: usize)
    requires
        model_of(json, entry) is Ok,
    ensures
        json is Object,
        ({
            let members = json->Object_0;
            let model = model_of(json, entry)->Ok_0;
            &&& member(members, Field::Name.key()) == Some(JsonView::Text(model.name))
            &&& member(members, Field::Model.key()) == Some(JsonView::Text(model.model))
            &&& member(members, Field::ModifiedAt.key()) == Some(JsonView::Text(model.modified_at))
            &&& member(members, Field::Size.key()) == Some(JsonView::Number(Some(model.size)))
            &&& member(members, Field::Digest.key()) == Some(JsonView::Text(model.digest))
            &&& member(members, Field::Details.key()) matches Some(details) && detail_of(
                details,
                entry,
            ) == Ok::<DetailView, ShapeError>(model.details)
        }),
{
}

/// Verbatim: a value that is read as metadata gives each member as the
/// value has it under the member's key. The list of families is absent
/// where the value has none or has `null`, and then no bullet is shown;
/// else it holds the texts of the array, in order, one bullet each.
pub proof fn lemma_detail_verbatim(json: JsonView, entry: usize)
    requires
        detail_of(json, entry) is Ok,
    ensures
        json is Object,
        ({
            let members = json->Object_0;
            let detail = detail_of(json, entry)->Ok_0;
            &&& member(members, Field::ParentModel.key()) == Some(
                JsonView::Text(detail.parent_model),
            )
            &&& member(members, Field::Format.key()) == Some(JsonView::Text(detail.format))
            &&& member(members, Field::Family.key()) == Some(JsonView::Text(detail.family))
            &&& member(members, Field::ParameterSize.key()) == Some(
                JsonView::Text(detail.parameter_size),
            )
            &&& member(members, Field::QuantizationLevel.key()) == Some(
                JsonView::Text(detail.quantization_level),
            )
            &&& match member(members, Field::Families.key()) {
                None => detail.families is None && detail.bullets().len() == 0,
                Some(JsonView::Null) => detail.families is None && detail.bullets().len() == 0,
                Some(JsonView::Array(items)) => {
                    &&& all_text(items)
                    &&& detail.families == Some(tags_of(items))
                    &&& detail.bullets().len() == items.len()
                    &&& forall|i: int|
                        0 <= i < items.len() ==> #[trigger] detail.bullets()[i] == " - "@
                            + items[i]->Text_0
                },
                Some(_) => false,
            }
        }),
{
}

} // verus!
