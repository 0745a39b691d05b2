//! Shader bytecode handling: validation of a raw byte stream as word-aligned
//! bytecode, the stage a source file's extension names, and the name its
//! compiled artifact carries. Reading files and handing words to the driver
//! happen in the unverified shell; it passes plain bytes in and gets checked
//! words back.

use vstd::prelude::*;

use crate::GraphicsError;

verus! {

/// First word of every valid bytecode blob.
pub const SPIRV_MAGIC: u32 = 0x0723_0203;

/// The shader stage a source-file extension names.
#[derive(Clone, Copy, Debug, PartialEq, Eq, Structural)]
pub enum ShaderStage {
    Vertex,
    Fragment,
    Compute,
}

/// An immutable sequence of 32-bit bytecode words, validated once and
/// consumed once to produce a device-resident module.
#[derive(Clone, Debug)]
pub struct ShaderBinary {
    pub words: Vec<u32>,
}

impl ShaderBinary {
    /// A validated binary starts with the magic word.
    pub open spec fn wf(self) -> bool {
        self.words@.len() > 0 && self.words@[0] == SPIRV_MAGIC
    }
}

/// A shader module the device accepted, identified by its non-null handle.
#[derive(Clone, Copy, Debug, PartialEq, Eq, Structural)]
pub struct ShaderModuleHandle {
    pub handle: u64,
}

/// The little-endian 32-bit word starting at byte `4 * i`.
pub open spec fn spec_word_at(bytes: Seq<u8>, i: int) -> int
    recommends
        0 <= i,
        4 * i + 4 <= bytes.len(),
{
    bytes[4 * i] + bytes[4 * i + 1] * 0x100 + bytes[4 * i + 2] * 0x1_0000 + bytes[4 * i + 3]
        * 0x100_0000
}

/// The byte stream reassembled as its sequence of words.
pub open spec fn spec_words(bytes: Seq<u8>) -> Seq<u32>
    recommends
        bytes.len() % 4 == 0,
{
    Seq::new(bytes.len() / 4, |i: int| spec_word_at(bytes, i) as u32)
}

/// A stream is valid bytecode when it is non-empty, word-aligned, and its
/// first word is the magic header.
pub open spec fn spec_valid_spirv(bytes: Seq<u8>) -> bool {
    &&& bytes.len() > 0
    &&& bytes.len() % 4 == 0
    &&& spec_word_at(bytes, 0) == SPIRV_MAGIC
}

/// Validates a raw byte stream and packs it into words: rejected unless the
/// length is a non-zero multiple of four and the first word is the magic
/// header.
pub fn words_from_bytes(bytes: &Vec<u8>) -> (r: Result<ShaderBinary, GraphicsError>)
    ensures
        r is Ok <==> spec_valid_spirv(bytes@),
        r matches Ok(b) ==> b.words@ == spec_words(bytes@) && b.wf(),
        r matches Err(e) ==> e == GraphicsError::MalformedBytecode,
{
    let n = bytes.len();
    if n == 0 || n % 4 != 0 {
        return Err(GraphicsError::MalformedBytecode);
    }
    let mut words: Vec<u32> = Vec::new();
    let mut i: usize = 0;
    while i < n
        invariant
            bytes@.len() == n,
            n % 4 == 0,
            i % 4 == 0,
            i <= n,
            words@.len() == i / 4,
            forall|j: int| 0 <= j < i / 4 ==> words@[j] == spec_word_at(bytes@, j) as u32,
        decreases n - i,
    {
        let b0 = bytes[i] as u32;
        let b1 = bytes[i + 1] as u32;
        let b2 = bytes[i + 2] as u32;
        let b3 = bytes[i + 3] as u32;
        let w: u32 = b0 + b1 * 0x100 + b2 * 0x1_0000 + b3 * 0x100_0000;
        assert(w == spec_word_at(bytes@, i as int / 4) as u32);
        words.push(w);
        i = i + 4;
    }
    proof {
        assert(words@ =~= spec_words(bytes@));
    }
    if words[0] != SPIRV_MAGIC {
        return Err(GraphicsError::MalformedBytecode);
    }
    Ok(ShaderBinary { words })
}

/// Accepts the driver's answer to module creation: a non-null handle is a
/// module, a null one is a rejection of the parsed bytecode.
pub fn module_from_handle(handle: u64) -> (r: Result<ShaderModuleHandle, GraphicsError>)
    ensures
        r is Ok <==> handle != 0,
        r matches Ok(m) ==> m.handle == handle,
        r matches Err(e) ==> e == GraphicsError::ModuleCreationFailed,
{
    if handle == 0 {
        return Err(GraphicsError::ModuleCreationFailed);
    }
    Ok(ShaderModuleHandle { handle })
}

/// The stage a source-file extension names, or nothing for any other
/// extension.
pub fn shader_stage_for_extension(ext: &String) -> (r: Option<ShaderStage>)
    ensures
        ext@ == "vert"@ ==> r == Some(ShaderStage::Vertex),
        ext@ == "frag"@ ==> r == Some(ShaderStage::Fragment),
        ext@ == "comp"@ ==> r == Some(ShaderStage::Compute),
        ext@ != "vert"@ && ext@ != "frag"@ && ext@ != "comp"@ ==> r is None,
{
    proof {
        reveal_strlit("vert");
        reveal_strlit("frag");
        reveal_strlit("comp");
        assert("vert"@[0] == 'v' && "frag"@[0] == 'f' && "comp"@[0] == 'c');
    }
    if *ext == String::from_str("vert") {
        Some(ShaderStage::Vertex)
    } else if *ext == String::from_str("frag") {
        Some(ShaderStage::Fragment)
    } else if *ext == String::from_str("comp") {
        Some(ShaderStage::Compute)
    } else {
        None
    }
}

/// The name of the compiled artifact for a shader source file: the same
/// name with the bytecode extension appended.
pub fn compiled_filename(name: &String) -> (r: String)
    ensures
        r@ == name@ + ".spv"@,
{
    let out = name.clone();
    out.concat(".spv")
}

} // verus!
