//! Model configuration: the recognition models the application knows and
//! which of them is in use.

use vstd::prelude::*;
use vstd::utf8::encode_utf8;
use std::path::PathBuf;

pub use crate::scan::{ModelVariant, ScannedModelFiles};

verus! {

/// A file-system path of the standard library. Its contents are not
/// visible to the verifier.
#[verifier::external_type_specification]
#[verifier::external_body]
pub struct ExPathBuf(PathBuf);

/// What a path holds: the bytes of its text, in the encoding of operating
/// system strings, which for Unicode text is UTF-8.
pub uninterp spec fn path_units(path: PathBuf) -> Seq<u8>;

/// Whether the path that holds `units` is absolute, as the standard library
/// judges it for the platform the library is built for.
pub uninterp spec fn absolute_units(units: Seq<u8>) -> bool;

/// What the path holds that the standard library makes by adjoining the
/// path that holds `path` to the path that holds `base`, for the platform
/// the library is built for.
pub uninterp spec fn joined_units(base: Seq<u8>, path: Seq<u8>) -> Seq<u8>;

/// The text that the standard library gives for the path that holds
/// `units`, with a replacement character for what is not Unicode in it.
pub uninterp spec fn lossy_text(units: Seq<u8>) -> Seq<char>;

/// `PathBuf::from` on a string: the path holds the text, in UTF-8.
#[verifier::external_body]
fn path_of(text: &str) -> (r: PathBuf)
    ensures
        path_units(r) == encode_utf8(text@),
{
    PathBuf::from(text)
}

/// `Path::is_absolute`: the answer goes by what the path holds and by
/// nothing else, and is given the name [`absolute_units`].
#[verifier::external_body]
fn path_is_absolute(path: &PathBuf) -> (r: bool)
    ensures
        r == absolute_units(path_units(*path)),
{
    path.is_absolute()
}

/// `Path::join`: what the result holds goes by what the two paths hold and
/// by nothing else, and is given the name [`joined_units`].
#[verifier::external_body]
fn path_join(base: &PathBuf, path: PathBuf) -> (r: PathBuf)
    ensures
        path_units(r) == joined_units(path_units(*base), path_units(path)),
{
    base.join(path)
}

/// `Path::to_string_lossy`: the text goes by what the path holds and by
/// nothing else, and is given the name [`lossy_text`].
#[verifier::external_body]
fn path_text(path: &PathBuf) -> (r: String)
    ensures
        r@ == lossy_text(path_units(*path)),
{
    path.to_string_lossy().into_owned()
}

/// The path of the file named `name` under the directory whose path holds
/// `dir`, as text.
pub open spec fn text_under(dir: Seq<u8>, name: Seq<char>) -> Seq<char> {
    lossy_text(joined_units(dir, encode_utf8(name)))
}

/// What the place of a path holds: an absolute path stands for itself, any
/// other is adjoined to the base directory.
pub open spec fn resolved_units(path: Seq<u8>, is_absolute: bool, base: Seq<u8>) -> Seq<u8> {
    if is_absolute {
        path
    } else {
        joined_units(base, path)
    }
}

/// The kind of a recognition model, with the files that make it up.
#[derive(Debug, Clone, PartialEq)]
pub enum AsrModelType {
    /// A transducer: encoder, decoder and joiner.
    Transducer { encoder: String, decoder: String, joiner: String },
    /// A Paraformer model in a single file.
    Paraformer { model: String },
    /// A Whisper model.
    Whisper { encoder: String, decoder: String },
    /// A SenseVoice model.
    SenseVoice { model: String },
}

/// One recognition model.
#[derive(Debug, Clone)]
pub struct AsrModelConfig {
    /// Unique identifier.
    pub id: String,
    /// Display name.
    pub name: String,
    /// Directory that holds the model.
    pub model_dir: String,
    /// Kind and files.
    pub model_type: AsrModelType,
    /// Path of the tokens file.
    pub tokens: String,
    /// Languages the model recognizes.
    pub languages: Vec<String>,
    /// Sample rate the model expects.
    pub sample_rate: u32,
    /// Number of threads for inference.
    pub num_threads: i32,
}

/// The files of a transducer model, as paths.
#[derive(Debug, Clone)]
pub struct ModelFiles {
    /// Path of the encoder.
    pub encoder: String,
    /// Path of the decoder.
    pub decoder: String,
    /// Path of the joiner.
    pub joiner: String,
    /// Path of the tokens file.
    pub tokens: String,
}

/// The path of the file `name` under `dir`, as text.
fn file_under(dir: &PathBuf, name: &str) -> (r: String)
    ensures
        r@ == text_under(path_units(*dir), name@),
{
    let path = path_join(dir, path_of(name));
    path_text(&path)
}

/// Whether `files` are the files of the transducer `model` under the
/// directory whose path holds `dir`.
pub open spec fn files_of(model: AsrModelConfig, dir: Seq<u8>, files: ModelFiles) -> bool {
    &&& model.model_type matches AsrModelType::Transducer { encoder, decoder, joiner }
    &&& files.encoder@ == text_under(dir, encoder@)
    &&& files.decoder@ == text_under(dir, decoder@)
    &&& files.joiner@ == text_under(dir, joiner@)
    &&& files.tokens@ == text_under(dir, model.tokens@)
}

impl AsrModelConfig {
    /// The files of the model under `base_dir`, for a transducer; for a
    /// model of another kind, nothing.
    pub fn files_under(&self, base_dir: &PathBuf) -> (r: Option<ModelFiles>)
        ensures
            r is Some <==> self.model_type is Transducer,
            r is Some ==> files_of(*self, path_units(*base_dir), r->0),
    {
        match &self.model_type {
            AsrModelType::Transducer { encoder, decoder, joiner } => Some(
                ModelFiles {
                    encoder: file_under(base_dir, encoder.as_str()),
                    decoder: file_under(base_dir, decoder.as_str()),
                    joiner: file_under(base_dir, joiner.as_str()),
                    tokens: file_under(base_dir, self.tokens.as_str()),
                },
            ),
            _ => None,
        }
    }
}

/// The sample rate of a model that names none.
pub fn default_sample_rate() -> (r: u32)
    ensures
        r == 16000,
{
    16000
}

/// The thread count of a model that names none.
pub fn default_num_threads() -> (r: i32)
    ensures
        r == 2,
{
    2
}

/// The application's configuration.
#[derive(Debug, Clone)]
pub struct AppConfig {
    /// Identifier of the model in use.
    pub current_model_id: String,
    /// The models that are available.
    pub models: Vec<AsrModelConfig>,
}

/// Whether some model has the identifier `id`.
pub open spec fn has_id(models: Seq<AsrModelConfig>, id: Seq<char>) -> bool {
    exists|i: int| 0 <= i < models.len() && (#[trigger] models[i]).id@ == id
}

/// Whether the model at `i` is the first with the identifier `id`.
pub open spec fn is_first_with_id(models: Seq<AsrModelConfig>, id: Seq<char>, i: int) -> bool {
    &&& 0 <= i < models.len()
    &&& models[i].id@ == id
    &&& forall|j: int| 0 <= j < i ==> (#[trigger] models[j]).id@ != id
}

/// Position of the first model with the identifier `id`, if there is one.
fn find_model(models: &Vec<AsrModelConfig>, id: &str) -> (r: Option<usize>)
    ensures
        r is Some <==> has_id(models@, id@),
        r is Some ==> is_first_with_id(models@, id@, r->0 as int),
{
    let wanted = id.to_owned();
    let mut i: usize = 0;
    while i < models.len()
        invariant
            i <= models.len(),
            wanted@ == id@,
            forall|j: int| 0 <= j < i ==> (#[trigger] models@[j]).id@ != id@,
        decreases models.len() - i,
    {
        if models[i].id == wanted {
            return Some(i);
        }
        i += 1;
    }
    None
}

impl Default for AppConfig {
    /// A configuration with the one built-in transducer model, in use.
    fn default() -> (r: Self)
        ensures
            r.current_model_id@ == "default"@,
            r.models@.len() == 1,
            r.models@[0].id@ == "default"@,
            r.models@[0].name@ == "默认模型"@,
            r.models@[0].model_dir@.len() == 0,
            r.models@[0].model_type matches AsrModelType::Transducer { encoder, decoder, joiner }
                && encoder@ == "encoder.onnx"@ && decoder@ == "decoder.onnx"@ && joiner@
                == "joiner.onnx"@,
            r.models@[0].tokens@ == "tokens.txt"@,
            r.models@[0].languages@.len() == 2,
            r.models@[0].languages@[0]@ == "zh"@,
            r.models@[0].languages@[1]@ == "en"@,
            r.models@[0].sample_rate == 16000,
            r.models@[0].num_threads == 2,
    {
        let mut languages: Vec<String> = Vec::new();
        languages.push("zh".to_owned());
        languages.push("en".to_owned());
        let model = AsrModelConfig {
            id: "default".to_owned(),
            name: "默认模型".to_owned(),
            model_dir: String::new(),
            model_type: AsrModelType::Transducer {
                encoder: "encoder.onnx".to_owned(),
                decoder: "decoder.onnx".to_owned(),
                joiner: "joiner.onnx".to_owned(),
            },
            tokens: "tokens.txt".to_owned(),
            languages,
            sample_rate: default_sample_rate(),
            num_threads: default_num_threads(),
        };
        let mut models: Vec<AsrModelConfig> = Vec::new();
        models.push(model);
        AppConfig { current_model_id: "default".to_owned(), models }
    }
}

impl AppConfig {
    /// The model in use: the first model whose identifier is
    /// `current_model_id`.
    pub fn current_model(&self) -> (r: Option<&AsrModelConfig>)
        ensures
            r is Some <==> has_id(self.models@, self.current_model_id@),
            r is Some ==> exists|i: int|
                is_first_with_id(self.models@, self.current_model_id@, i) && *r->0
                    == self.models@[i],
    {
        match find_model(&self.models, self.current_model_id.as_str()) {
            Some(i) => Some(&self.models[i]),
            None => None,
        }
    }

    /// Puts the model with the identifier `model_id` in use, if there is
    /// one, and says whether there was.
    pub fn switch_model(&mut self, model_id: &str) -> (r: bool)
        ensures
            r == has_id(old(self).models@, model_id@),
            final(self).models == old(self).models,
            r ==> final(self).current_model_id@ == model_id@,
            !r ==> final(self).current_model_id == old(self).current_model_id,
    {
        match find_model(&self.models, model_id) {
            Some(_) => {
                self.current_model_id = model_id.to_owned();
                true
            },
            None => false,
        }
    }

    /// Adds `model`. Where a model with its identifier exists, the first
    /// such model is replaced; otherwise `model` comes last.
    pub fn add_model(&mut self, model: AsrModelConfig)
        ensures
            final(self).current_model_id == old(self).current_model_id,
            has_id(old(self).models@, model.id@) ==> exists|i: int|
                is_first_with_id(old(self).models@, model.id@, i) && final(self).models@ == old(
                    self,
                ).models@.update(i, model),
            !has_id(old(self).models@, model.id@) ==> final(self).models@ == old(
                self,
            ).models@.push(model),
    {
        match find_model(&self.models, model.id.as_str()) {
            Some(i) => {
                self.models.set(i, model);
            },
            None => {
                self.models.push(model);
            },
        }
    }

    /// The path of a model file: `relative_path` itself where the platform
    /// takes it for absolute, else `relative_path` adjoined to `base_dir`.
    pub fn resolve_model_path(&self, relative_path: &str, base_dir: &PathBuf) -> (r: PathBuf)
        ensures
            path_units(r) == resolved_units(
                encode_utf8(relative_path@),
                absolute_units(encode_utf8(relative_path@)),
                path_units(*base_dir),
            ),
    {
        let path = path_of(relative_path);
        let absolute = path_is_absolute(&path);
        resolve_path(path, absolute, base_dir)
    }
}

/// The place of `path`, of which the platform says whether it is absolute:
/// an absolute path stands for itself, any other is adjoined to `base_dir`.
pub fn resolve_path(path: PathBuf, is_absolute: bool, base_dir: &PathBuf) -> (r: PathBuf)
    ensures
        is_absolute ==> r == path,
        path_units(r) == resolved_units(path_units(path), is_absolute, path_units(*base_dir)),
{
    if is_absolute {
        path
    } else {
        path_join(base_dir, path)
    }
}

} // verus!
