//! Formats: strategies that turn the bytes of an asset into its data, and the
//! boxed handles that let a loader keep formats of different kinds together.
use std::sync::Arc;
use vstd::prelude::*;

use crate::error::ImportError;

verus! {

/// Resolves the name of an asset to its bytes (a directory, an archive, the network).
pub trait Source: Send + Sync + 'static {
    /// Whether `r` is an answer this source may give when asked for `name`.
    spec fn answers(&self, name: &str, r: &Result<Vec<u8>, amethyst_error::Error>) -> bool;

    /// The bytes stored under `name`, or why they could not be had.
    fn load(&self, name: &str) -> (r: Result<Vec<u8>, amethyst_error::Error>)
        ensures
            self.answers(name, &r),
    ;
}

/// What a format's import hands back: the data it produced.
#[derive(Debug, Clone, PartialEq, Eq)]
pub struct FormatValue<D> {
    /// The data.
    pub data: D,
}

impl<D> FormatValue<D> {
    /// A value holding `data` alone.
    pub fn data(data: D) -> (r: Self)
        ensures
            r.data == data,
    {
        FormatValue { data }
    }
}

/// What the default import makes of a result of `import_simple`: data is
/// wrapped in a `FormatValue`, and an error is surfaced as it was reported,
/// under the format category.
pub open spec fn wrapped<D>(decoded: Result<D, amethyst_error::Error>) -> Result<FormatValue<D>, ImportError> {
    match decoded {
        Ok(d) => Ok(FormatValue { data: d }),
        Err(e) => Err(ImportError::Format(e)),
    }
}

/// Wraps a result of `import_simple` as the default import returns it.
pub fn wrap_decoded<D>(decoded: Result<D, amethyst_error::Error>) -> (r: Result<FormatValue<D>, ImportError>)
    ensures
        r == wrapped(decoded),
{
    match decoded {
        Ok(d) => Ok(FormatValue::data(d)),
        Err(e) => Err(ImportError::Format(e)),
    }
}

/// A way to turn bytes into data of type `D` (PNG, OBJ, WAV). The value of the
/// format is its configuration (mipmap levels, sampler options): it owns no
/// asset, and what it decodes depends on that configuration and the bytes alone.
pub trait Format<D: 'static>: core::fmt::Debug + Send + Sync + 'static {
    /// The name of this format, the same on every call.
    spec fn format_name(&self) -> &'static str;

    /// The data that this configuration decodes from the contents `bytes`, or
    /// `None` where it cannot decode them: what `import_simple` is held to. By
    /// default a format decodes no single blob; one that does says here what
    /// it makes of each.
    open spec fn decoded(&self, bytes: Seq<u8>) -> Option<D> {
        None
    }

    /// An identifier for this format, used for diagnostics.
    fn name(&self) -> (r: &'static str)
        ensures
            r == self.format_name(),
    ;

    /// Decodes one self-contained blob of bytes. A format whose `import` reads
    /// its assets otherwise, and never decodes a single blob, reports an error
    /// for every input.
    fn import_simple(&self, bytes: Vec<u8>) -> (r: Result<D, amethyst_error::Error>)
        ensures
            r is Ok <==> self.decoded(bytes@) is Some,
            r is Ok ==> self.decoded(bytes@) == Some(r->Ok_0),
    ;

    /// The default import once the byte source has answered with `loaded`: a
    /// failure of the source becomes a source error and `import_simple` is not
    /// called; bytes go through `import_simple`, whose result is wrapped as
    /// `wrap_decoded` wraps it.
    fn import_loaded(&self, loaded: Result<Vec<u8>, amethyst_error::Error>) -> (r: Result<
        FormatValue<D>,
        ImportError,
    >)
        ensures
            match loaded {
                Err(e) => r == Err::<FormatValue<D>, ImportError>(ImportError::Source(e)),
                Ok(b) => exists|rs: Result<D, amethyst_error::Error>|
                    #[trigger] wrapped(rs) == r && match self.decoded(b@) {
                        Some(d) => rs == Ok::<D, amethyst_error::Error>(d),
                        None => rs is Err,
                    },
            },
    {
        match loaded {
            Err(e) => Err(ImportError::Source(e)),
            Ok(bytes) => wrap_decoded(self.import_simple(bytes)),
        }
    }

    /// Whether `r` is a result `import` may give for `name` read from `source`.
    /// By default, what `default_import` returns: the source is asked for
    /// `name`, and its answer goes on as in `import_loaded`. A format that
    /// reads its assets otherwise says here what its `import` returns.
    open spec fn imports(
        &self,
        name: String,
        source: &Arc<dyn Source>,
        r: Result<FormatValue<D>, ImportError>,
    ) -> bool {
        exists|asked: &str, loaded: Result<Vec<u8>, amethyst_error::Error>|
            #[trigger] source.answers(asked, &loaded) && asked@ == name@ && match loaded {
                Err(e) => r == Err::<FormatValue<D>, ImportError>(ImportError::Source(e)),
                Ok(b) => exists|rs: Result<D, amethyst_error::Error>|
                    #[trigger] wrapped(rs) == r && match self.decoded(b@) {
                        Some(d) => rs == Ok::<D, amethyst_error::Error>(d),
                        None => rs is Err,
                    },
            }
    }

    /// The default import: asks `source` for the bytes under `name` and hands
    /// its answer to `import_loaded`.
    fn default_import(&self, name: String, source: &Arc<dyn Source>) -> (r: Result<FormatValue<D>, ImportError>)
        ensures
            exists|asked: &str, loaded: Result<Vec<u8>, amethyst_error::Error>|
                #[trigger] source.answers(asked, &loaded) && asked@ == name@ && match loaded {
                    Err(e) => r == Err::<FormatValue<D>, ImportError>(ImportError::Source(e)),
                    Ok(b) => exists|rs: Result<D, amethyst_error::Error>|
                        #[trigger] wrapped(rs) == r && match self.decoded(b@) {
                            Some(d) => rs == Ok::<D, amethyst_error::Error>(d),
                            None => rs is Err,
                        },
                },
    {
        let loaded = source.load(name.as_str());
        self.import_loaded(loaded)
    }

    /// Reads the asset `name` from `source` and decodes it. A format that
    /// decodes one file per asset implements this as
    /// `self.default_import(name, source)`; formats made of several files read
    /// them here themselves.
    fn import(&self, name: String, source: &Arc<dyn Source>) -> (r: Result<FormatValue<D>, ImportError>)
        ensures
            self.imports(name, source, r),
    ;
}

/// A boxed format of any kind, that loaders keep among formats of other kinds:
/// every call is handed on to the format in the box.
impl<D: 'static> Format<D> for Box<dyn Format<D>> {
    open spec fn format_name(&self) -> &'static str {
        (**self).format_name()
    }

    open spec fn decoded(&self, bytes: Seq<u8>) -> Option<D> {
        (**self).decoded(bytes)
    }

    open spec fn imports(
        &self,
        name: String,
        source: &Arc<dyn Source>,
        r: Result<FormatValue<D>, ImportError>,
    ) -> bool {
        (**self).imports(name, source, r)
    }

    fn name(&self) -> (r: &'static str) {
        (**self).name()
    }

    fn import_simple(&self, bytes: Vec<u8>) -> (r: Result<D, amethyst_error::Error>) {
        (**self).import_simple(bytes)
    }

    fn import(&self, name: String, source: &Arc<dyn Source>) -> (r: Result<FormatValue<D>, ImportError>) {
        (**self).import(name, source)
    }
}

/// A format whose configuration can itself be stored and read back, so that
/// descriptions of assets can name the format and its options. Implement it
/// only for a type whose configuration implements serialization as well: this
/// trait does not require it, since the serialization traits cannot be bounds
/// here, so nothing checks the pairing. A handle that does require it has to
/// be built outside the verified library.
pub trait SerializableFormat<D: 'static>: Format<D> + 'static {}

/// A boxed serializable format of any kind: every call is handed on to the
/// format in the box.
impl<D: 'static> Format<D> for Box<dyn SerializableFormat<D>> {
    open spec fn format_name(&self) -> &'static str {
        (**self).format_name()
    }

    open spec fn decoded(&self, bytes: Seq<u8>) -> Option<D> {
        (**self).decoded(bytes)
    }

    open spec fn imports(
        &self,
        name: String,
        source: &Arc<dyn Source>,
        r: Result<FormatValue<D>, ImportError>,
    ) -> bool {
        (**self).imports(name, source, r)
    }

    fn name(&self) -> (r: &'static str) {
        (**self).name()
    }

    fn import_simple(&self, bytes: Vec<u8>) -> (r: Result<D, amethyst_error::Error>) {
        (**self).import_simple(bytes)
    }

    fn import(&self, name: String, source: &Arc<dyn Source>) -> (r: Result<FormatValue<D>, ImportError>) {
        (**self).import(name, source)
    }
}

impl<D: 'static> SerializableFormat<D> for Box<dyn SerializableFormat<D>> {}

/// Decoding depends on the configuration and the contents of the bytes alone:
/// two calls of `import_simple` on formats with the same configuration (a
/// format and a faithful clone of it, or one format twice) with bytes of the
/// same contents both succeed with the same data or both fail, whatever else
/// was decoded in between.
pub proof fn lemma_same_configuration_same_data<D: 'static, F: Format<D>>(
    f: &F,
    g: &F,
    bytes_f: Seq<u8>,
    bytes_g: Seq<u8>,
    r_f: Result<D, amethyst_error::Error>,
    r_g: Result<D, amethyst_error::Error>,
)
    requires
        *f == *g,
        bytes_f == bytes_g,
        r_f is Ok <==> f.decoded(bytes_f) is Some,
        r_f is Ok ==> f.decoded(bytes_f) == Some(r_f->Ok_0),
        r_g is Ok <==> g.decoded(bytes_g) is Some,
        r_g is Ok ==> g.decoded(bytes_g) == Some(r_g->Ok_0),
    ensures
        r_f is Ok <==> r_g is Ok,
        r_f is Ok ==> r_f->Ok_0 == r_g->Ok_0,
        f.format_name() == g.format_name(),
{
}

/// A boxed format has the name, decodes every input, and may return from
/// `import` exactly what the format in the box does.
pub proof fn lemma_boxed_format_forwards<D: 'static>(
    h: &Box<dyn Format<D>>,
    bytes: Seq<u8>,
    name: String,
    source: &Arc<dyn Source>,
    r: Result<FormatValue<D>, ImportError>,
)
    ensures
        h.format_name() == (**h).format_name(),
        h.decoded(bytes) == (**h).decoded(bytes),
        h.imports(name, source, r) == (**h).imports(name, source, r),
{
}

/// A boxed serializable format has the name, decodes every input, and may
/// return from `import` exactly what the format in the box does.
pub proof fn lemma_boxed_serializable_format_forwards<D: 'static>(
    h: &Box<dyn SerializableFormat<D>>,
    bytes: Seq<u8>,
    name: String,
    source: &Arc<dyn Source>,
    r: Result<FormatValue<D>, ImportError>,
)
    ensures
        h.format_name() == (**h).format_name(),
        h.decoded(bytes) == (**h).decoded(bytes),
        h.imports(name, source, r) == (**h).imports(name, source, r),
{
}

} // verus!
