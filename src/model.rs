use vstd::prelude::*;

verus! {

/// The mathematical value of a [`Model`]: which well-known model it names,
/// or the free-form name it carries.
pub enum ModelView {
    ChatGPT3_5Turbo,
    GPT4,
    Other(Seq<char>),
}

/// Canonical name of the low-cost well-known model.
pub open spec fn turbo_text() -> Seq<char> {
    "gpt-3.5-turbo"@
}

/// Canonical name of the high-capability well-known model.
pub open spec fn gpt4_text() -> Seq<char> {
    "gpt-4"@
}

/// The canonical text of a model.
pub open spec fn model_text(m: ModelView) -> Seq<char> {
    match m {
        ModelView::ChatGPT3_5Turbo => turbo_text(),
        ModelView::GPT4 => gpt4_text(),
        ModelView::Other(name) => name,
    }
}

/// The model that a text names: a well-known model for its canonical text,
/// the free-form model carrying the text for anything else.
pub open spec fn model_from_text(s: Seq<char>) -> ModelView {
    if s == turbo_text() {
        ModelView::ChatGPT3_5Turbo
    } else if s == gpt4_text() {
        ModelView::GPT4
    } else {
        ModelView::Other(s)
    }
}

/// The model chosen when none is given.
pub open spec fn default_model() -> ModelView {
    ModelView::ChatGPT3_5Turbo
}

/// A chat model: one of the well-known models, or a custom model named by a
/// string, for models that this library does not list.
#[derive(Debug, Clone)]
pub enum Model {
    ChatGPT3_5Turbo,
    GPT4,
    Other(String),
}

impl View for Model {
    type V = ModelView;

    open spec fn view(&self) -> ModelView {
        match self {
            Model::ChatGPT3_5Turbo => ModelView::ChatGPT3_5Turbo,
            Model::GPT4 => ModelView::GPT4,
            Model::Other(name) => ModelView::Other(name@),
        }
    }
}

impl Model {
    /// The name of the model as the API expects it.
    pub fn to_string(&self) -> (r: String)
        ensures
            r@ == model_text(self@),
    {
        match self {
            Model::ChatGPT3_5Turbo => "gpt-3.5-turbo".to_owned(),
            Model::GPT4 => "gpt-4".to_owned(),
            Model::Other(name) => name.clone(),
        }
    }
}

/// The model that a string names, as an executable value; its view is
/// `model_from_text(s@)`.
pub open spec fn model_from_string(s: String) -> Model {
    if s@ == turbo_text() {
        Model::ChatGPT3_5Turbo
    } else if s@ == gpt4_text() {
        Model::GPT4
    } else {
        Model::Other(s)
    }
}

impl Default for Model {
    /// The low-cost well-known model.
    fn default() -> (r: Self)
        ensures
            r@ == default_model(),
    {
        Model::ChatGPT3_5Turbo
    }
}

impl From<String> for Model {
    /// Reads a model name: the canonical names give the well-known models,
    /// any other string is kept as a custom model. Matching is exact.
    fn from(s: String) -> (r: Self)
        ensures
            r@ == model_from_text(s@),
    {
        let turbo = "gpt-3.5-turbo".to_owned();
        let gpt4 = "gpt-4".to_owned();
        if s == turbo {
            Model::ChatGPT3_5Turbo
        } else if s == gpt4 {
            Model::GPT4
        } else {
            Model::Other(s)
        }
    }
}

impl vstd::std_specs::convert::FromSpecImpl<String> for Model {
    open spec fn obeys_from_spec() -> bool {
        true
    }

    open spec fn from_spec(v: String) -> Model {
        model_from_string(v)
    }
}

impl PartialEq for Model {
    /// Two models are equal when they name the same model: the same
    /// well-known model, or custom models with equal names.
    fn eq(&self, other: &Model) -> (r: bool) {
        match (self, other) {
            (Model::ChatGPT3_5Turbo, Model::ChatGPT3_5Turbo) => true,
            (Model::GPT4, Model::GPT4) => true,
            (Model::Other(a), Model::Other(b)) => a.eq(b),
            _ => false,
        }
    }
}

impl vstd::std_specs::cmp::PartialEqSpecImpl for Model {
    open spec fn obeys_eq_spec() -> bool {
        true
    }

    open spec fn eq_spec(&self, other: &Model) -> bool {
        self@ == other@
    }
}

/// The two canonical names differ.
pub proof fn lemma_known_texts_distinct()
    ensures
        model_text(ModelView::ChatGPT3_5Turbo) != model_text(ModelView::GPT4),
{
    reveal_strlit("gpt-3.5-turbo");
    reveal_strlit("gpt-4");
    assert(turbo_text().len() != gpt4_text().len());
}

/// Reading back the text of a well-known model gives that model.
pub proof fn lemma_known_round_trip(v: ModelView)
    requires
        v is ChatGPT3_5Turbo || v is GPT4,
    ensures
        model_from_text(model_text(v)) == v,
{
    lemma_known_texts_distinct();
}

/// Any text other than the two canonical names is read as a custom model
/// carrying exactly that text, whose text is the input again.
pub proof fn lemma_other_round_trip(s: Seq<char>)
    requires
        s != turbo_text(),
        s != gpt4_text(),
    ensures
        model_from_text(s) == ModelView::Other(s),
        model_text(model_from_text(s)) == s,
{
}

/// Reading a text and writing the model back gives the text unchanged, for
/// every text.
pub proof fn lemma_text_round_trip(s: Seq<char>)
    ensures
        model_text(model_from_text(s)) == s,
{
}

/// The default model is the one read from the low-cost model's canonical name.
pub proof fn lemma_default_from_text()
    ensures
        default_model() == model_from_text(turbo_text()),
{
}

} // verus!
