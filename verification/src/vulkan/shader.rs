//! Shader modules, shader sets and the decoding of SPIR-V binaries.

use vstd::prelude::*;

verus! {

/// The pipeline stage that a shader runs in.
#[derive(Clone, Copy, Debug, PartialEq, Eq, Structural)]
pub enum ShaderStage {
    Vertex,
    Fragment,
    Geometry,
    TessellationControl,
    TessellationEvaluation,
}

/// Why a shader could not be made.
#[derive(Debug)]
pub enum Error {
    /// The bytes are no SPIR-V binary.
    ReadShaderSourceBytes,
}

/// A shader module by its raw handle, with the stage it is for. Its entry
/// point is `ShaderSet::SHADER_ENTRY_POINT_NAME`.
#[derive(Clone, Copy, Debug, PartialEq, Eq, Structural)]
pub struct Shader {
    pub module: u64,
    pub stage: ShaderStage,
}

/// The shaders of one pipeline, at most one per stage.
#[derive(Clone, Copy, Debug, PartialEq, Eq, Structural)]
pub struct ShaderSet {
    pub vertex_shader: Option<Shader>,
    pub fragment_shader: Option<Shader>,
    pub geometry_shader: Option<Shader>,
    pub tessellation_evaluation_shader: Option<Shader>,
    pub tessellation_control_shader: Option<Shader>,
}

/// A shader module with the path of the file that it was made from.
#[derive(Debug)]
struct CachedShader {
    path: String,
    shader: Shader,
}

/// The shader modules that were made so far, by the path of their file. The
/// renderer owns the cache and lends it to whoever builds a pipeline, so that
/// no file is made into a module twice.
#[derive(Debug)]
pub struct ShaderCache {
    entries: Vec<CachedShader>,
}

/// The shader of the first of the first `n` entries whose path is `path`.
spec fn lookup(entries: Seq<CachedShader>, n: nat, path: Seq<char>) -> Option<Shader>
    decreases n,
{
    if n == 0 {
        None
    } else {
        match lookup(entries, (n - 1) as nat, path) {
            Some(shader) => Some(shader),
            None => if entries[n - 1].path@ == path {
                Some(entries[n - 1].shader)
            } else {
                None
            },
        }
    }
}

/// What was found among some entries is found among more.
proof fn lemma_lookup_extends(
    entries: Seq<CachedShader>,
    more: Seq<CachedShader>,
    n: nat,
    path: Seq<char>,
)
    requires
        n <= entries.len() <= more.len(),
        forall|i: int| 0 <= i < entries.len() ==> more[i] == entries[i],
    ensures
        lookup(more, n, path) == lookup(entries, n, path),
    decreases n,
{
    if n > 0 {
        lemma_lookup_extends(entries, more, (n - 1) as nat, path);
    }
}

impl View for ShaderCache {
    type V = Map<Seq<char>, Shader>;

    closed spec fn view(&self) -> Map<Seq<char>, Shader> {
        Map::new(
            |path: Seq<char>| lookup(self.entries@, self.entries@.len(), path) is Some,
            |path: Seq<char>| lookup(self.entries@, self.entries@.len(), path)->0,
        )
    }
}

impl ShaderCache {
    /// A cache without shaders.
    pub fn new() -> (cache: Self)
        ensures
            cache@ == Map::<Seq<char>, Shader>::empty(),
    {
        ShaderCache { entries: Vec::new() }
    }

    /// The shader that was made from the file at `path`, if one was.
    pub fn get(&self, path: &String) -> (shader: Option<Shader>)
        ensures
            shader == (if self@.contains_key(path@) {
                Some(self@[path@])
            } else {
                None
            }),
    {
        let mut i: usize = 0;
        while i < self.entries.len()
            invariant
                i <= self.entries@.len(),
                lookup(self.entries@, i as nat, path@) is None,
            decreases self.entries@.len() - i,
        {
            if self.entries[i].path == *path {
                let shader = self.entries[i].shader;
                proof {
                    lemma_lookup_found(self.entries@, (i + 1) as nat, self.entries@.len(), path@);
                }
                return Some(shader);
            }
            i += 1;
        }
        None
    }

    /// Takes `shader` as the shader of the file at `path`, unless the cache
    /// has one for that path already: what was cached stays.
    pub fn add_shader(&mut self, path: String, shader: Shader)
        ensures
            final(self)@ == (if old(self)@.contains_key(path@) {
                old(self)@
            } else {
                old(self)@.insert(path@, shader)
            }),
    {
        if self.get(&path).is_none() {
            let ghost before = self.entries@;
            let ghost key = path@;
            self.entries.push(CachedShader { path, shader });
            assert forall|other: Seq<char>|
                lookup(self.entries@, self.entries@.len(), other) == (if other == key {
                    Some(shader)
                } else {
                    lookup(before, before.len(), other)
                }) by {
                lemma_lookup_extends(before, self.entries@, before.len(), other);
            }
        }
    }
}

/// What was found among some entries is what is found among more of them.
proof fn lemma_lookup_found(entries: Seq<CachedShader>, n: nat, m: nat, path: Seq<char>)
    requires
        n <= m,
        lookup(entries, n, path) is Some,
    ensures
        lookup(entries, m, path) == lookup(entries, n, path),
    decreases m,
{
    if n < m {
        lemma_lookup_found(entries, n, (m - 1) as nat, path);
    }
}

/// The first word of every SPIR-V binary.
pub const SPIRV_MAGIC_NUMBER: u32 = 0x0723_0203;

/// Word `i` of `bytes`, read with the least significant byte first.
pub open spec fn word_le(bytes: Seq<u8>, i: int) -> int {
    bytes[4 * i] + 0x100 * bytes[4 * i + 1] + 0x1_0000 * bytes[4 * i + 2] + 0x100_0000 * bytes[4
        * i + 3]
}

/// Word `i` of `bytes`, read with the most significant byte first.
pub open spec fn word_be(bytes: Seq<u8>, i: int) -> int {
    bytes[4 * i + 3] + 0x100 * bytes[4 * i + 2] + 0x1_0000 * bytes[4 * i + 1] + 0x100_0000
        * bytes[4 * i]
}

/// `bytes` are a SPIR-V binary: a whole number of words, the first of which
/// is the magic number in one byte order or the other.
pub open spec fn is_spirv(bytes: Seq<u8>) -> bool {
    &&& bytes.len() % 4 == 0
    &&& bytes.len() >= 4
    &&& (word_le(bytes, 0) == SPIRV_MAGIC_NUMBER || word_be(bytes, 0) == SPIRV_MAGIC_NUMBER)
}

/// The words of the SPIR-V binary `bytes`, each read in the byte order in
/// which the first word is the magic number.
pub open spec fn spirv_words(bytes: Seq<u8>) -> Seq<u32> {
    Seq::new(
        (bytes.len() / 4) as nat,
        |i: int|
            if word_le(bytes, 0) == SPIRV_MAGIC_NUMBER {
                word_le(bytes, i) as u32
            } else {
                word_be(bytes, i) as u32
            },
    )
}

/// `std::io::Error`, which `ash::util::read_spv` fails with. Nothing is
/// known of what it holds.
#[verifier::external_type_specification]
#[verifier::external_body]
pub struct ExIoError(std::io::Error);

/// Calls `ash::util::read_spv` on a cursor over `bytes`. It answers with an
/// error for a length that is no multiple of four, for no bytes at all and
/// for a first word that is the magic number in neither byte order; else
/// with the words, swapped where the binary is in the other byte order than
/// the machine's, so that the first word is the magic number.
#[verifier::external_body]
fn read_spv(bytes: &[u8]) -> (words: Result<Vec<u32>, std::io::Error>)
    ensures
        words is Ok <==> is_spirv(bytes@),
        words matches Ok(words) ==> words@ == spirv_words(bytes@),
{
    ash::util::read_spv(&mut std::io::Cursor::new(bytes))
}

impl ShaderSet {
    /// The entry point of every shader.
    pub const SHADER_ENTRY_POINT_NAME: &'static str = "main";

    /// A set without shaders.
    pub fn new() -> (set: Self)
        ensures
            set == (ShaderSet {
                vertex_shader: None,
                fragment_shader: None,
                geometry_shader: None,
                tessellation_evaluation_shader: None,
                tessellation_control_shader: None,
            }),
    {
        ShaderSet {
            vertex_shader: None,
            fragment_shader: None,
            geometry_shader: None,
            tessellation_evaluation_shader: None,
            tessellation_control_shader: None,
        }
    }

    /// The set with the module `module` as its vertex shader.
    pub fn vertex_shader(self, module: u64) -> (set: Self)
        ensures
            set == (ShaderSet {
                vertex_shader: Some(Shader { module, stage: ShaderStage::Vertex }),
                ..self
            }),
    {
        ShaderSet { vertex_shader: Some(Shader::new(module, ShaderStage::Vertex)), ..self }
    }

    /// The set with the module `module` as its fragment shader.
    pub fn fragment_shader(self, module: u64) -> (set: Self)
        ensures
            set == (ShaderSet {
                fragment_shader: Some(Shader { module, stage: ShaderStage::Fragment }),
                ..self
            }),
    {
        ShaderSet { fragment_shader: Some(Shader::new(module, ShaderStage::Fragment)), ..self }
    }

    /// The set with the module `module` as its geometry shader.
    pub fn geometry_shader(self, module: u64) -> (set: Self)
        ensures
            set == (ShaderSet {
                geometry_shader: Some(Shader { module, stage: ShaderStage::Geometry }),
                ..self
            }),
    {
        ShaderSet { geometry_shader: Some(Shader::new(module, ShaderStage::Geometry)), ..self }
    }

    /// The set with the module `module` as its tessellation control shader.
    pub fn tessellation_control_shader(self, module: u64) -> (set: Self)
        ensures
            set == (ShaderSet {
                tessellation_control_shader: Some(
                    Shader { module, stage: ShaderStage::TessellationControl },
                ),
                ..self
            }),
    {
        ShaderSet {
            tessellation_control_shader: Some(
                Shader::new(module, ShaderStage::TessellationControl),
            ),
            ..self
        }
    }

    /// The set with the module `module` as its tessellation evaluation
    /// shader.
    pub fn tessellation_evaluation_shader(self, module: u64) -> (set: Self)
        ensures
            set == (ShaderSet {
                tessellation_evaluation_shader: Some(
                    Shader { module, stage: ShaderStage::TessellationEvaluation },
                ),
                ..self
            }),
    {
        ShaderSet {
            tessellation_evaluation_shader: Some(
                Shader::new(module, ShaderStage::TessellationEvaluation),
            ),
            ..self
        }
    }
}

impl Shader {
    /// The shader of stage `stage` that the module `module` holds.
    pub fn new(module: u64, stage: ShaderStage) -> (shader: Self)
        ensures
            shader == (Shader { module, stage }),
    {
        Shader { module, stage }
    }

    /// The words of the SPIR-V binary that a shader file holds, from which
    /// its module is created. A file that is no SPIR-V binary is an error.
    pub fn decode(bytes: &[u8]) -> (words: Result<Vec<u32>, Error>)
        ensures
            match words {
                Ok(words) => is_spirv(bytes@) && words@ == spirv_words(bytes@),
                Err(error) => !is_spirv(bytes@) && error is ReadShaderSourceBytes,
            },
    {
        match read_spv(bytes) {
            Ok(words) => Ok(words),
            Err(_) => Err(Error::ReadShaderSourceBytes),
        }
    }
}

} // verus!
