//! Recognizing the files of a model among the files of a directory.
//!
//! The caller lists the regular files of the directory, in the order in
//! which the file system gave them. A file counts as the encoder, the
//! decoder or the joiner of the model if its name, in lowercase, contains
//! that word and ends with `.onnx`, and as the tokens file if it contains
//! `tokens` and ends with `.txt`. Where a part comes in several files, the
//! first whose path contains `int8` is preferred, else the first.

use vstd::prelude::*;
use crate::text::{
    has_infix, has_suffix, lowercase, text_le, contains, ends_with, str_le, to_lowercase,
    lemma_text_le_reflexive, lemma_text_le_total, lemma_text_le_transitive,
};

verus! {

/// A regular file of the model directory.
#[derive(Debug, Clone)]
pub struct FileEntry {
    /// The file's name, without the directory.
    pub file_name: String,
    /// The file's path.
    pub path: String,
}

/// One set of model files that belong together.
#[derive(Debug, Clone)]
pub struct ModelVariant {
    /// `int8` or `fp32`.
    pub variant_name: String,
    /// Path of the encoder.
    pub encoder: String,
    /// Path of the decoder.
    pub decoder: String,
    /// Path of the joiner.
    pub joiner: String,
}

/// What was recognized in a model directory.
#[derive(Debug, Clone)]
pub struct ScannedModelFiles {
    /// The model's identifier: the directory's name.
    pub id: String,
    /// The model's name: the directory's name.
    pub model_name: String,
    /// The directory's path.
    pub model_dir: String,
    /// The encoder to use by default.
    pub encoder: Option<String>,
    /// The decoder to use by default.
    pub decoder: Option<String>,
    /// The joiner to use by default.
    pub joiner: Option<String>,
    /// The tokens file.
    pub tokens: Option<String>,
    /// Whether encoder, decoder, joiner and tokens were all found.
    pub is_complete: bool,
    /// The variants that can be chosen from, where there are several.
    pub variants: Vec<ModelVariant>,
    /// Whether encoder, decoder and joiner each come in several files.
    pub has_multiple_variants: bool,
}

/// What part of a model a file is.
#[derive(Debug, Clone, Copy, PartialEq, Eq, Structural)]
pub enum FileKind {
    Encoder,
    Decoder,
    Joiner,
    Tokens,
    Other,
}

/// The kind of a file by its name in lowercase.
pub open spec fn kind_of(name: Seq<char>) -> FileKind {
    if has_infix(name, "encoder"@) && has_suffix(name, ".onnx"@) {
        FileKind::Encoder
    } else if has_infix(name, "decoder"@) && has_suffix(name, ".onnx"@) {
        FileKind::Decoder
    } else if has_infix(name, "joiner"@) && has_suffix(name, ".onnx"@) {
        FileKind::Joiner
    } else if has_infix(name, "tokens"@) && has_suffix(name, ".txt"@) {
        FileKind::Tokens
    } else {
        FileKind::Other
    }
}

/// The kind of a file by its name as listed.
pub open spec fn entry_kind(entry: FileEntry) -> FileKind {
    kind_of(lowercase(entry.file_name@))
}

/// The paths of the files of one kind, in the order of the listing.
pub open spec fn paths_of(files: Seq<FileEntry>, kind: FileKind) -> Seq<Seq<char>>
    decreases files.len(),
{
    if files.len() == 0 {
        Seq::empty()
    } else if entry_kind(files.last()) == kind {
        paths_of(files.drop_last(), kind).push(files.last().path@)
    } else {
        paths_of(files.drop_last(), kind)
    }
}

/// Whether a path is that of a quantized (`int8`) file.
pub open spec fn is_int8(path: Seq<char>) -> bool {
    has_infix(path, "int8"@)
}

/// The first of `paths` that is, or is not, an `int8` file.
pub open spec fn first_of(paths: Seq<Seq<char>>, int8: bool) -> Option<Seq<char>>
    decreases paths.len(),
{
    if paths.len() == 0 {
        None
    } else if is_int8(paths.first()) == int8 {
        Some(paths.first())
    } else {
        first_of(paths.drop_first(), int8)
    }
}

/// The file to use by default: the first `int8` file, else the first file.
pub open spec fn preferred(paths: Seq<Seq<char>>) -> Option<Seq<char>> {
    if first_of(paths, true) is Some {
        first_of(paths, true)
    } else if paths.len() > 0 {
        Some(paths.first())
    } else {
        None
    }
}

/// The last of `paths`, if there is any.
pub open spec fn last_of(paths: Seq<Seq<char>>) -> Option<Seq<char>> {
    if paths.len() > 0 {
        Some(paths.last())
    } else {
        None
    }
}

/// A variant as plain values.
pub ghost struct VariantView {
    pub variant_name: Seq<char>,
    pub encoder: Seq<char>,
    pub decoder: Seq<char>,
    pub joiner: Seq<char>,
}

impl View for ModelVariant {
    type V = VariantView;

    open spec fn view(&self) -> VariantView {
        VariantView {
            variant_name: self.variant_name@,
            encoder: self.encoder@,
            decoder: self.decoder@,
            joiner: self.joiner@,
        }
    }
}

/// The variant made of the first `int8` files, or of the first other files,
/// where each part has such a file.
pub open spec fn variant_of(
    encoders: Seq<Seq<char>>,
    decoders: Seq<Seq<char>>,
    joiners: Seq<Seq<char>>,
    int8: bool,
) -> Seq<VariantView> {
    if first_of(encoders, int8) is Some && first_of(decoders, int8) is Some && first_of(
        joiners,
        int8,
    ) is Some {
        seq![
            VariantView {
                variant_name: if int8 {
                    "int8"@
                } else {
                    "fp32"@
                },
                encoder: first_of(encoders, int8)->0,
                decoder: first_of(decoders, int8)->0,
                joiner: first_of(joiners, int8)->0,
            },
        ]
    } else {
        Seq::empty()
    }
}

/// Whether each part comes in several files.
pub open spec fn several(
    encoders: Seq<Seq<char>>,
    decoders: Seq<Seq<char>>,
    joiners: Seq<Seq<char>>,
) -> bool {
    encoders.len() > 1 && decoders.len() > 1 && joiners.len() > 1
}

/// The variants to choose from: none unless each part comes in several
/// files; then the `int8` variant before the `fp32` variant, each where it
/// is complete.
pub open spec fn variants_of(
    encoders: Seq<Seq<char>>,
    decoders: Seq<Seq<char>>,
    joiners: Seq<Seq<char>>,
) -> Seq<VariantView> {
    if several(encoders, decoders, joiners) {
        variant_of(encoders, decoders, joiners, true) + variant_of(
            encoders,
            decoders,
            joiners,
            false,
        )
    } else {
        Seq::empty()
    }
}

/// The texts of a list of strings.
pub open spec fn texts(v: Seq<String>) -> Seq<Seq<char>> {
    v.map_values(|s: String| s@)
}

/// The text of an optional string.
pub open spec fn opt_text(o: Option<String>) -> Option<Seq<char>> {
    match o {
        Some(s) => Some(s@),
        None => None,
    }
}

/// The plain values of a list of variants.
pub open spec fn variant_views(v: Seq<ModelVariant>) -> Seq<VariantView> {
    v.map_values(|m: ModelVariant| m@)
}

/// What part of a model the file with this name is.
pub fn classify(file_name: &str) -> (k: FileKind)
    ensures
        k == kind_of(lowercase(file_name@)),
{
    let lower = to_lowercase(file_name);
    let name = lower.as_str();
    if contains(name, "encoder") && ends_with(name, ".onnx") {
        FileKind::Encoder
    } else if contains(name, "decoder") && ends_with(name, ".onnx") {
        FileKind::Decoder
    } else if contains(name, "joiner") && ends_with(name, ".onnx") {
        FileKind::Joiner
    } else if contains(name, "tokens") && ends_with(name, ".txt") {
        FileKind::Tokens
    } else {
        FileKind::Other
    }
}

/// The first of `paths` that is, or is not, an `int8` file.
fn find_first(paths: &Vec<String>, int8: bool) -> (r: Option<String>)
    ensures
        opt_text(r) == first_of(texts(paths@), int8),
{
    let ghost all = texts(paths@);
    let mut i: usize = 0;
    proof {
        assert(all.skip(0) =~= all);
    }
    while i < paths.len()
        invariant
            i <= paths.len(),
            all == texts(paths@),
            first_of(all, int8) == first_of(all.skip(i as int), int8),
        decreases paths.len() - i,
    {
        proof {
            assert(all.skip(i as int).first() == paths@[i as int]@);
            assert(all.skip(i as int).drop_first() =~= all.skip(i + 1));
        }
        if contains(paths[i].as_str(), "int8") == int8 {
            return Some(paths[i].clone());
        }
        i += 1;
    }
    None
}

/// The file to use by default among `paths`.
fn choose_preferred(paths: &Vec<String>) -> (r: Option<String>)
    ensures
        opt_text(r) == preferred(texts(paths@)),
{
    match find_first(paths, true) {
        Some(p) => Some(p),
        None => {
            if paths.len() > 0 {
                Some(paths[0].clone())
            } else {
                None
            }
        },
    }
}

/// Adds to `variants` the variant made of the first `int8` files, or of the
/// first other files, where each part has such a file.
fn push_variant(
    variants: &mut Vec<ModelVariant>,
    encoders: &Vec<String>,
    decoders: &Vec<String>,
    joiners: &Vec<String>,
    int8: bool,
)
    ensures
        variant_views(final(variants)@) == variant_views(old(variants)@) + variant_of(
            texts(encoders@),
            texts(decoders@),
            texts(joiners@),
            int8,
        ),
{
    let encoder = find_first(encoders, int8);
    let decoder = find_first(decoders, int8);
    let joiner = find_first(joiners, int8);
    match (encoder, decoder, joiner) {
        (Some(encoder), Some(decoder), Some(joiner)) => {
            let variant_name = if int8 {
                "int8".to_owned()
            } else {
                "fp32".to_owned()
            };
            variants.push(ModelVariant { variant_name, encoder, decoder, joiner });
        },
        _ => {},
    }
    proof {
        assert(variant_views(variants@) =~= variant_views(old(variants)@) + variant_of(
            texts(encoders@),
            texts(decoders@),
            texts(joiners@),
            int8,
        ));
    }
}

impl ScannedModelFiles {
    /// Recognizes the model files among `files`, the regular files of the
    /// directory named `model_name` at `model_dir`.
    pub fn from_listing(model_name: String, model_dir: String, files: &Vec<FileEntry>) -> (r: Self)
        ensures
            r.id@ == model_name@,
            r.model_name@ == model_name@,
            r.model_dir@ == model_dir@,
            opt_text(r.encoder) == preferred(paths_of(files@, FileKind::Encoder)),
            opt_text(r.decoder) == preferred(paths_of(files@, FileKind::Decoder)),
            opt_text(r.joiner) == preferred(paths_of(files@, FileKind::Joiner)),
            opt_text(r.tokens) == last_of(paths_of(files@, FileKind::Tokens)),
            r.has_multiple_variants == several(
                paths_of(files@, FileKind::Encoder),
                paths_of(files@, FileKind::Decoder),
                paths_of(files@, FileKind::Joiner),
            ),
            variant_views(r.variants@) == variants_of(
                paths_of(files@, FileKind::Encoder),
                paths_of(files@, FileKind::Decoder),
                paths_of(files@, FileKind::Joiner),
            ),
            r.is_complete == (r.encoder is Some && r.decoder is Some && r.joiner is Some
                && r.tokens is Some),
    {
        let mut encoders: Vec<String> = Vec::new();
        let mut decoders: Vec<String> = Vec::new();
        let mut joiners: Vec<String> = Vec::new();
        let mut tokens: Option<String> = None;
        let mut i: usize = 0;
        proof {
            assert(files@.take(0) =~= Seq::<FileEntry>::empty());
            assert(texts(encoders@) =~= Seq::<Seq<char>>::empty());
            assert(texts(decoders@) =~= Seq::<Seq<char>>::empty());
            assert(texts(joiners@) =~= Seq::<Seq<char>>::empty());
        }
        while i < files.len()
            invariant
                i <= files.len(),
                texts(encoders@) == paths_of(files@.take(i as int), FileKind::Encoder),
                texts(decoders@) == paths_of(files@.take(i as int), FileKind::Decoder),
                texts(joiners@) == paths_of(files@.take(i as int), FileKind::Joiner),
                opt_text(tokens) == last_of(paths_of(files@.take(i as int), FileKind::Tokens)),
            decreases files.len() - i,
        {
            let ghost seen = files@.take(i as int);
            let ghost now = files@.take(i + 1);
            let ghost old_encoders = encoders@;
            let ghost old_decoders = decoders@;
            let ghost old_joiners = joiners@;
            proof {
                assert(now.drop_last() =~= seen);
                assert(now.last() == files@[i as int]);
            }
            let entry = &files[i];
            match classify(entry.file_name.as_str()) {
                FileKind::Encoder => {
                    encoders.push(entry.path.clone());
                    proof {
                        assert(texts(encoders@) =~= texts(old_encoders).push(entry.path@));
                    }
                },
                FileKind::Decoder => {
                    decoders.push(entry.path.clone());
                    proof {
                        assert(texts(decoders@) =~= texts(old_decoders).push(entry.path@));
                    }
                },
                FileKind::Joiner => {
                    joiners.push(entry.path.clone());
                    proof {
                        assert(texts(joiners@) =~= texts(old_joiners).push(entry.path@));
                    }
                },
                FileKind::Tokens => {
                    tokens = Some(entry.path.clone());
                },
                FileKind::Other => {},
            }
            i += 1;
        }
        proof {
            assert(files@.take(files@.len() as int) =~= files@);
        }
        let encoder = choose_preferred(&encoders);
        let decoder = choose_preferred(&decoders);
        let joiner = choose_preferred(&joiners);
        let has_multiple_variants = encoders.len() > 1 && decoders.len() > 1 && joiners.len() > 1;
        let mut variants: Vec<ModelVariant> = Vec::new();
        proof {
            assert(variant_views(variants@) =~= Seq::<VariantView>::empty());
        }
        if has_multiple_variants {
            push_variant(&mut variants, &encoders, &decoders, &joiners, true);
            push_variant(&mut variants, &encoders, &decoders, &joiners, false);
        }
        let is_complete = encoder.is_some() && decoder.is_some() && joiner.is_some()
            && tokens.is_some();
        ScannedModelFiles {
            id: model_name.clone(),
            model_name,
            model_dir,
            encoder,
            decoder,
            joiner,
            tokens,
            is_complete,
            variants,
            has_multiple_variants,
        }
    }
}

/// `sorted` with `x` put behind the last model whose name is in order with
/// the name of `x`.
pub open spec fn insert_by_name(sorted: Seq<ScannedModelFiles>, x: ScannedModelFiles) -> Seq<
    ScannedModelFiles,
>
    decreases sorted.len(),
{
    if sorted.len() == 0 {
        seq![x]
    } else if text_le(sorted.last().model_name@, x.model_name@) {
        sorted.push(x)
    } else {
        insert_by_name(sorted.drop_last(), x).push(sorted.last())
    }
}

/// The models in the order of their names, models of one name in the order
/// in which they came.
pub open spec fn sorted_by_name(models: Seq<ScannedModelFiles>) -> Seq<ScannedModelFiles>
    decreases models.len(),
{
    if models.len() == 0 {
        Seq::empty()
    } else {
        insert_by_name(sorted_by_name(models.drop_last()), models.last())
    }
}

/// Whether the names of `models` stand in order.
pub open spec fn names_in_order(models: Seq<ScannedModelFiles>) -> bool {
    forall|i: int, j: int|
        0 <= i <= j < models.len() ==> text_le(
            (#[trigger] models[i]).model_name@,
            (#[trigger] models[j]).model_name@,
        )
}

/// The models of `models` that are named `name`, in order.
pub open spec fn named(models: Seq<ScannedModelFiles>, name: Seq<char>) -> Seq<ScannedModelFiles>
    decreases models.len(),
{
    if models.len() == 0 {
        Seq::empty()
    } else if models.last().model_name@ == name {
        named(models.drop_last(), name).push(models.last())
    } else {
        named(models.drop_last(), name)
    }
}

/// Puts the scanned models in the order of their names. Models of one name
/// keep the order in which they came.
pub fn sort_by_name(models: Vec<ScannedModelFiles>) -> (r: Vec<ScannedModelFiles>)
    ensures
        r@ == sorted_by_name(models@),
        r@.len() == models@.len(),
        names_in_order(r@),
        forall|name: Seq<char>| #[trigger] named(r@, name) == named(models@, name),
{
    let ghost all = models@;
    let mut out: Vec<ScannedModelFiles> = Vec::new();
    proof {
        assert(all.take(0) =~= Seq::<ScannedModelFiles>::empty());
    }
    for model in it: models.into_iter()
        invariant
            it.seq() == all,
            out@ == sorted_by_name(all.take(it.index() as int)),
    {
        let ghost done = it.index() as int;
        let ghost sorted = out@;
        let mut pos = out.len();
        proof {
            assert(sorted.take(pos as int) =~= sorted);
            assert(insert_by_name(sorted, model) + sorted.skip(pos as int) =~= insert_by_name(
                sorted,
                model,
            ));
        }
        while pos > 0 && !str_le(out[pos - 1].model_name.as_str(), model.model_name.as_str())
            invariant
                pos <= out@.len(),
                out@ == sorted,
                insert_by_name(sorted, model) == insert_by_name(sorted.take(pos as int), model)
                    + sorted.skip(pos as int),
            decreases pos,
        {
            proof {
                let head = sorted.take(pos as int);
                assert(head.last() == sorted[pos - 1]);
                assert(head.drop_last() =~= sorted.take(pos - 1));
                assert(insert_by_name(head.drop_last(), model).push(head.last()) + sorted.skip(
                    pos as int,
                ) =~= insert_by_name(sorted.take(pos - 1), model) + sorted.skip(pos - 1));
            }
            pos -= 1;
        }
        proof {
            let head = sorted.take(pos as int);
            if pos > 0 {
                assert(head.last() == sorted[pos - 1]);
            }
            assert(insert_by_name(head, model) == head.push(model));
            assert(head.push(model) + sorted.skip(pos as int) =~= sorted.insert(pos as int, model));
            assert(all.take(done + 1).drop_last() =~= all.take(done));
        }
        out.insert(pos, model);
    }
    proof {
        assert(all.take(all.len() as int) =~= all);
        lemma_sorted_by_name_is_in_order(all);
        assert forall|name: Seq<char>| #[trigger] named(out@, name) == named(all, name) by {
            lemma_sorted_by_name_keeps_named(all, name);
        }
    }
    out
}

/// Putting a model in leaves every name in order with a name that was
/// behind them all.
proof fn lemma_insert_stays_below(
    sorted: Seq<ScannedModelFiles>,
    x: ScannedModelFiles,
    bound: Seq<char>,
)
    requires
        forall|i: int| 0 <= i < sorted.len() ==> text_le((#[trigger] sorted[i]).model_name@, bound),
        text_le(x.model_name@, bound),
    ensures
        insert_by_name(sorted, x).len() == sorted.len() + 1,
        forall|i: int|
            0 <= i < insert_by_name(sorted, x).len() ==> text_le(
                (#[trigger] insert_by_name(sorted, x)[i]).model_name@,
                bound,
            ),
    decreases sorted.len(),
{
    if sorted.len() > 0 && !text_le(sorted.last().model_name@, x.model_name@) {
        let front = sorted.drop_last();
        assert forall|i: int| 0 <= i < front.len() implies text_le(
            (#[trigger] front[i]).model_name@,
            bound,
        ) by {
            assert(front[i] == sorted[i]);
        }
        lemma_insert_stays_below(front, x, bound);
    }
}

/// Putting a model in keeps names in order.
proof fn lemma_insert_keeps_order(sorted: Seq<ScannedModelFiles>, x: ScannedModelFiles)
    requires
        names_in_order(sorted),
    ensures
        names_in_order(insert_by_name(sorted, x)),
        insert_by_name(sorted, x).len() == sorted.len() + 1,
    decreases sorted.len(),
{
    let r = insert_by_name(sorted, x);
    lemma_text_le_reflexive(x.model_name@);
    if sorted.len() == 0 {
    } else if text_le(sorted.last().model_name@, x.model_name@) {
        assert forall|i: int, j: int| 0 <= i <= j < r.len() implies text_le(
            (#[trigger] r[i]).model_name@,
            (#[trigger] r[j]).model_name@,
        ) by {
            if j == sorted.len() && i < sorted.len() {
                assert(text_le(sorted[i].model_name@, sorted.last().model_name@));
                lemma_text_le_transitive(
                    sorted[i].model_name@,
                    sorted.last().model_name@,
                    x.model_name@,
                );
            }
        }
    } else {
        let front = sorted.drop_last();
        let last = sorted.last();
        let inner = insert_by_name(front, x);
        assert forall|i: int, j: int| 0 <= i <= j < front.len() implies text_le(
            (#[trigger] front[i]).model_name@,
            (#[trigger] front[j]).model_name@,
        ) by {
            assert(front[i] == sorted[i] && front[j] == sorted[j]);
        }
        lemma_insert_keeps_order(front, x);
        lemma_text_le_total(last.model_name@, x.model_name@);
        assert forall|i: int| 0 <= i < front.len() implies text_le(
            (#[trigger] front[i]).model_name@,
            last.model_name@,
        ) by {
            assert(front[i] == sorted[i]);
            assert(text_le(sorted[i].model_name@, sorted[sorted.len() - 1].model_name@));
        }
        lemma_insert_stays_below(front, x, last.model_name@);
        lemma_text_le_reflexive(last.model_name@);
        assert forall|i: int, j: int| 0 <= i <= j < r.len() implies text_le(
            (#[trigger] r[i]).model_name@,
            (#[trigger] r[j]).model_name@,
        ) by {
            if j == inner.len() && i < inner.len() {
                assert(r[i] == inner[i]);
            }
        }
    }
}

/// The sorted models stand in the order of their names.
pub proof fn lemma_sorted_by_name_is_in_order(models: Seq<ScannedModelFiles>)
    ensures
        names_in_order(sorted_by_name(models)),
        sorted_by_name(models).len() == models.len(),
    decreases models.len(),
{
    if models.len() > 0 {
        lemma_sorted_by_name_is_in_order(models.drop_last());
        lemma_insert_keeps_order(sorted_by_name(models.drop_last()), models.last());
    }
}

/// Putting a model in adds it behind the models of its name and leaves the
/// models of every other name as they are.
proof fn lemma_insert_keeps_named(
    sorted: Seq<ScannedModelFiles>,
    x: ScannedModelFiles,
    name: Seq<char>,
)
    ensures
        named(insert_by_name(sorted, x), name) == if x.model_name@ == name {
            named(sorted, name).push(x)
        } else {
            named(sorted, name)
        },
    decreases sorted.len(),
{
    let r = insert_by_name(sorted, x);
    if sorted.len() == 0 {
        assert(r.drop_last() =~= sorted);
    } else if text_le(sorted.last().model_name@, x.model_name@) {
        assert(r.drop_last() =~= sorted);
    } else {
        let inner = insert_by_name(sorted.drop_last(), x);
        lemma_insert_keeps_named(sorted.drop_last(), x, name);
        assert(r.drop_last() =~= inner);
        assert(r.last() == sorted.last());
        if sorted.last().model_name@ == x.model_name@ {
            lemma_text_le_reflexive(x.model_name@);
        }
    }
}

/// Sorting loses nothing, adds nothing and is stable: for every name, the
/// models of that name are the same before and after, in the same order.
pub proof fn lemma_sorted_by_name_keeps_named(models: Seq<ScannedModelFiles>, name: Seq<char>)
    ensures
        named(sorted_by_name(models), name) == named(models, name),
    decreases models.len(),
{
    if models.len() > 0 {
        lemma_sorted_by_name_keeps_named(models.drop_last(), name);
        lemma_insert_keeps_named(sorted_by_name(models.drop_last()), models.last(), name);
    }
}

} // verus!
