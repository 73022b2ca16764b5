//! The models that the daemon serves, and how one is shown.

use crate::decimal::{decimal, decimal_string};
use crate::report::{line_views, on_channel, Channel, Line, LineView};
use crate::text::{framed, labelled, texts};
use vstd::prelude::*;

verus! {

/// Descriptive metadata of a model.
#[derive(Debug, Clone, PartialEq, Eq)]
pub struct Detail {
    /// The model this one was derived from; empty where there is none.
    pub parent_model: String,
    /// The serialization format of the weights.
    pub format: String,
    /// The primary architecture family.
    pub family: String,
    /// Further family tags. An absent list and an empty one are different.
    pub families: Option<Vec<String>>,
    /// The parameter count as the daemon words it, such as "7B".
    pub parameter_size: String,
    /// The quantization scheme.
    pub quantization_level: String,
}

/// A [`Detail`] as mathematical values.
pub struct DetailView {
    pub parent_model: Seq<char>,
    pub format: Seq<char>,
    pub family: Seq<char>,
    pub families: Option<Seq<Seq<char>>>,
    pub parameter_size: Seq<char>,
    pub quantization_level: Seq<char>,
}

impl View for Detail {
    type V = DetailView;

    open spec fn view(&self) -> DetailView {
        DetailView {
            parent_model: self.parent_model@,
            format: self.format@,
            family: self.family@,
            families: match self.families {
                Some(tags) => Some(texts(tags@)),
                None => None,
            },
            parameter_size: self.parameter_size@,
            quantization_level: self.quantization_level@,
        }
    }
}

impl DetailView {
    /// One line for each further family tag, in order; none where the list
    /// is absent.
    pub open spec fn bullets(self) -> Seq<Seq<char>> {
        match self.families {
            Some(tags) => tags.map_values(|tag: Seq<char>| " - "@ + tag),
            None => Seq::empty(),
        }
    }

    /// The lines that show the metadata: three fields, the family bullets,
    /// two more fields.
    pub open spec fn lines(self) -> Seq<Seq<char>> {
        seq![
            "Parent Model: "@ + self.parent_model,
            "Format: "@ + self.format,
            "Family: "@ + self.family,
        ] + self.bullets() + seq![
            "Parameter Size: "@ + self.parameter_size,
            "Quantization Level: "@ + self.quantization_level,
        ]
    }
}

impl Detail {
    /// Renders the metadata as lines of text.
    pub fn display(&self) -> (lines: Vec<String>)
        ensures
            texts(lines@) == self@.lines(),
    {
        let mut lines: Vec<String> = Vec::new();
        lines.push(labelled("Parent Model: ", self.parent_model.as_str()));
        lines.push(labelled("Format: ", self.format.as_str()));
        lines.push(labelled("Family: ", self.family.as_str()));
        let ghost head = texts(lines@);
        match &self.families {
            Some(tags) => {
                let mut i: usize = 0;
                while i < tags.len()
                    invariant
                        i <= tags.len(),
                        self.families == Some(*tags),
                        texts(lines@) == head + self@.bullets().subrange(0, i as int),
                    decreases tags.len() - i,
                {
                    let ghost before = texts(lines@);
                    lines.push(labelled(" - ", tags[i].as_str()));
                    assert(texts(lines@) =~= before.push(" - "@ + tags@[i as int]@));
                    i += 1;
                }
            },
            None => {},
        }
        let ghost body = texts(lines@);
        lines.push(labelled("Parameter Size: ", self.parameter_size.as_str()));
        lines.push(labelled("Quantization Level: ", self.quantization_level.as_str()));
        assert(texts(lines@) =~= body + seq![
            "Parameter Size: "@ + self.parameter_size@,
            "Quantization Level: "@ + self.quantization_level@,
        ]);
        lines
    }
}

/// One model that the daemon serves.
#[derive(Debug, Clone, PartialEq, Eq)]
pub struct Model {
    /// The name under which the model is shown.
    pub name: String,
    /// The canonical identifier of the model.
    pub model: String,
    /// When the model was last changed, as the daemon words it.
    pub modified_at: String,
    /// The size of the model in bytes.
    pub size: u64,
    /// The content hash of the model.
    pub digest: String,
    /// Descriptive metadata.
    pub details: Detail,
}

/// A [`Model`] as mathematical values.
pub struct ModelView {
    pub name: Seq<char>,
    pub model: Seq<char>,
    pub modified_at: Seq<char>,
    pub size: u64,
    pub digest: Seq<char>,
    pub details: DetailView,
}

impl View for Model {
    type V = ModelView;

    open spec fn view(&self) -> ModelView {
        ModelView {
            name: self.name@,
            model: self.model@,
            modified_at: self.modified_at@,
            size: self.size,
            digest: self.digest@,
            details: self.details@,
        }
    }
}

impl ModelView {
    /// The lines that show the model: its own five fields, then its
    /// metadata.
    pub open spec fn lines(self) -> Seq<Seq<char>> {
        seq![
            "Model Name: "@ + self.name,
            "Model ID: "@ + self.model,
            "Modified At: "@ + self.modified_at,
            "Size: "@ + decimal(self.size as nat) + " bytes"@,
            "Digest: "@ + self.digest,
        ] + self.details.lines()
    }
}

impl Model {
    /// Renders the model as lines of text.
    pub fn display(&self) -> (lines: Vec<String>)
        ensures
            texts(lines@) == self@.lines(),
    {
        let mut lines: Vec<String> = Vec::new();
        lines.push(labelled("Model Name: ", self.name.as_str()));
        lines.push(labelled("Model ID: ", self.model.as_str()));
        lines.push(labelled("Modified At: ", self.modified_at.as_str()));
        let size: String = decimal_string(self.size);
        lines.push(framed("Size: ", size.as_str(), " bytes"));
        lines.push(labelled("Digest: ", self.digest.as_str()));
        let mut rest: Vec<String> = self.details.display();
        lines.append(&mut rest);
        lines
    }
}

/// The line that closes the block of each model.
pub open spec fn divider() -> Seq<char> {
    "---------------------------"@
}

impl ModelView {
    /// The block that shows one model in a listing: its lines on the
    /// console, then the divider.
    pub open spec fn block(self) -> Seq<LineView> {
        on_channel(Channel::Console, self.lines()).push(
            LineView { channel: Channel::Console, text: divider() },
        )
    }
}

/// The blocks of `models`, one after the other.
pub open spec fn blocks(models: Seq<ModelView>) -> Seq<LineView>
    decreases models.len(),
{
    if models.len() == 0 {
        Seq::empty()
    } else {
        blocks(models.drop_last()) + models.last().block()
    }
}

/// Sends each text to the console.
fn to_console(shown: &Vec<String>) -> (lines: Vec<Line>)
    ensures
        line_views(lines@) == on_channel(Channel::Console, texts(shown@)),
{
    let mut lines: Vec<Line> = Vec::new();
    let mut i: usize = 0;
    while i < shown.len()
        invariant
            i <= shown.len(),
            line_views(lines@) == on_channel(Channel::Console, texts(shown@)).subrange(0, i as int),
        decreases shown.len() - i,
    {
        let ghost before = line_views(lines@);
        lines.push(Line::new(Channel::Console, shown[i].clone()));
        assert(line_views(lines@) =~= before.push(
            LineView { channel: Channel::Console, text: shown@[i as int]@ },
        ));
        i += 1;
    }
    lines
}

/// The models that the daemon serves, in the order in which it lists them.
#[derive(Debug, Clone, PartialEq, Eq)]
pub struct Models {
    /// The models, first listed first.
    pub models: Vec<Model>,
}

/// The views of a sequence of models, in order.
pub open spec fn model_views(models: Seq<Model>) -> Seq<ModelView> {
    models.map_values(|m: Model| m@)
}

/// A [`Models`] as mathematical values.
pub struct ModelsView {
    pub models: Seq<ModelView>,
}

impl View for Models {
    type V = ModelsView;

    open spec fn view(&self) -> ModelsView {
        ModelsView { models: model_views(self.models@) }
    }
}

impl ModelsView {
    /// What a listing says: one remark where there is no model; else a
    /// heading and the block of each model, in order.
    pub open spec fn listing(self) -> Seq<LineView> {
        if self.models.len() == 0 {
            seq![LineView { channel: Channel::Info, text: "No available models found."@ }]
        } else {
            seq![LineView { channel: Channel::Info, text: "Available models:"@ }] + blocks(
                self.models,
            )
        }
    }
}

impl Models {
    /// Renders the listing of the models.
    pub fn listing(&self) -> (lines: Vec<Line>)
        ensures
            line_views(lines@) == self@.listing(),
    {
        let mut lines: Vec<Line> = Vec::new();
        if self.models.len() == 0 {
            lines.push(Line::fixed(Channel::Info, "No available models found."));
            return lines;
        }
        lines.push(Line::fixed(Channel::Info, "Available models:"));
        let ghost head = line_views(lines@);
        let mut i: usize = 0;
        while i < self.models.len()
            invariant
                i <= self.models.len(),
                line_views(lines@) == head + blocks(self@.models.subrange(0, i as int)),
            decreases self.models.len() - i,
        {
            let ghost before = line_views(lines@);
            let shown: Vec<String> = self.models[i].display();
            let mut block: Vec<Line> = to_console(&shown);
            block.push(Line::fixed(Channel::Console, "---------------------------"));
            lines.append(&mut block);
            assert(line_views(lines@) =~= before + self@.models[i as int].block());
            proof {
                let upto = self@.models.subrange(0, i + 1);
                assert(upto.drop_last() =~= self@.models.subrange(0, i as int));
            }
            i += 1;
        }
        assert(self@.models.subrange(0, i as int) =~= self@.models);
        lines
    }
}

/// Family bullets: metadata without a list of families is shown in five
/// lines and no bullet; with a list, one bullet for each tag stands
/// between the third field and the fourth, in the order of the list.
pub proof fn lemma_family_bullets(detail: DetailView)
    ensures
        detail.lines().len() == 5 + detail.bullets().len(),
        detail.lines()[0] == "Parent Model: "@ + detail.parent_model,
        detail.lines()[1] == "Format: "@ + detail.format,
        detail.lines()[2] == "Family: "@ + detail.family,
        detail.lines()[3 + detail.bullets().len() as int] == "Parameter Size: "@
            + detail.parameter_size,
        detail.lines()[4 + detail.bullets().len() as int] == "Quantization Level: "@
            + detail.quantization_level,
        detail.families is None ==> detail.bullets().len() == 0,
        detail.families matches Some(tags) ==> {
            &&& detail.bullets().len() == tags.len()
            &&& forall|i: int|
                0 <= i < tags.len() ==> #[trigger] detail.lines()[3 + i] == " - "@ + tags[i]
        },
{
}

/// A listing without models is one remark and nothing else.
pub proof fn lemma_empty_listing(models: ModelsView)
    requires
        models.models.len() == 0,
    ensures
        models.listing() == seq![
            LineView { channel: Channel::Info, text: "No available models found."@ },
        ],
{
}

/// The blocks of two runs of models, joined, are the blocks of the joined
/// run.
pub proof fn lemma_blocks_join(front: Seq<ModelView>, back: Seq<ModelView>)
    ensures
        blocks(front + back) == blocks(front) + blocks(back),
    decreases back.len(),
{
    if back.len() == 0 {
    } else {
        lemma_blocks_join(front, back.drop_last());
        assert((front + back).drop_last() =~= front + back.drop_last());
    }
}

/// A listing of models opens with its heading; then every model has its
/// block, in the order of the list: the block of model `i` follows the
/// blocks of the models before it and is followed by those of the models
/// after it. Each block ends with the divider.
pub proof fn lemma_listing_in_order(models: ModelsView, i: int)
    requires
        0 <= i < models.models.len(),
    ensures
        models.listing() == seq![LineView { channel: Channel::Info, text: "Available models:"@ }]
            + blocks(models.models.subrange(0, i)) + models.models[i].block() + blocks(
            models.models.subrange(i + 1, models.models.len() as int),
        ),
        models.models[i].block().len() == models.models[i].lines().len() + 1,
        models.models[i].block().last() == (LineView {
            channel: Channel::Console,
            text: divider(),
        }),
        forall|k: int|
            0 <= k < models.models[i].lines().len() ==> #[trigger] models.models[i].block()[k] == (
            LineView { channel: Channel::Console, text: models.models[i].lines()[k] }),
{
    let all = models.models;
    let front = all.subrange(0, i);
    let one = seq![all[i]];
    let back = all.subrange(i + 1, all.len() as int);
    assert(all =~= front + one + back);
    lemma_blocks_join(front + one, back);
    lemma_blocks_join(front, one);
    assert(blocks(one) =~= all[i].block()) by {
        assert(blocks(one.drop_last()) =~= Seq::<LineView>::empty());
    }
}

} // verus!
