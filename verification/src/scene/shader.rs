//! Shader source, as the text the shader compiler takes.

use vstd::prelude::*;

verus! {

/// The source of a shader: bytes without a zero byte among them, so that
/// they can be handed over as a zero-terminated string.
#[derive(Debug, Clone)]
pub struct Shader {
    source: Vec<u8>,
}

/// Why a shader could not be loaded.
#[derive(Clone, Copy, Debug, PartialEq, Eq, Structural)]
pub enum ShaderError {
    /// The bytes hold a zero byte, the first at `position`.
    Utf8 { position: usize },
}

/// Whether no byte of `bytes` is zero.
pub open spec fn spec_has_no_nul(bytes: Seq<u8>) -> bool {
    forall|i: int| 0 <= i < bytes.len() ==> bytes[i] != 0
}

/// Whether the first zero byte of `bytes` is at `position`.
pub open spec fn spec_first_nul(bytes: Seq<u8>, position: int) -> bool {
    &&& 0 <= position < bytes.len()
    &&& bytes[position] == 0
    &&& forall|i: int| 0 <= i < position ==> bytes[i] != 0
}

impl Shader {
    /// The bytes of the source.
    pub closed spec fn spec_source(&self) -> Seq<u8> {
        self.source@
    }

    /// The invariant of a shader: its source holds no zero byte.
    pub open spec fn wf(&self) -> bool {
        spec_has_no_nul(self.spec_source())
    }

    /// Takes `bytes` as shader source.
    ///
    /// Fails with `Utf8` at the position of the first zero byte, if there
    /// is one.
    pub fn new(bytes: Vec<u8>) -> (shader: Result<Shader, ShaderError>)
        ensures
            spec_has_no_nul(bytes@) ==> shader is Ok && shader->Ok_0.spec_source() == bytes@
                && shader->Ok_0.wf(),
            !spec_has_no_nul(bytes@) ==> shader is Err && shader->Err_0 is Utf8 && spec_first_nul(
                bytes@,
                shader->Err_0->position as int,
            ),
    {
        let mut i: usize = 0;
        while i < bytes.len()
            invariant
                i <= bytes@.len(),
                forall|j: int| 0 <= j < i ==> bytes@[j] != 0,
            decreases bytes@.len() - i,
        {
            if bytes[i] == 0 {
                return Err(ShaderError::Utf8 { position: i });
            }
            i = i + 1;
        }
        Ok(Shader { source: bytes })
    }

    /// The bytes of the source.
    pub fn source(&self) -> (source: &Vec<u8>)
        ensures
            source@ == self.spec_source(),
    {
        &self.source
    }

    /// The source as a zero-terminated string: the bytes of the source and
    /// one zero byte after them.
    pub fn pcstr(&self) -> (terminated: Vec<u8>)
        ensures
            terminated@ == self.spec_source().push(0u8),
    {
        let mut terminated: Vec<u8> = Vec::new();
        let mut i: usize = 0;
        while i < self.source.len()
            invariant
                i <= self.source@.len(),
                terminated@ == self.source@.subrange(0, i as int),
            decreases self.source@.len() - i,
        {
            terminated.push(self.source[i]);
            proof {
                assert(terminated@ =~= self.source@.subrange(0, i + 1));
            }
            i = i + 1;
        }
        terminated.push(0);
        proof {
            assert(self.source@.subrange(0, self.source@.len() as int) =~= self.source@);
        }
        terminated
    }
}

} // verus!
