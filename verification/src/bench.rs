//! Which implementation of a routine a benchmark name selects on this
//! processor.

use vstd::prelude::*;
use crate::detect::{DetectedFeatures, X86Feature};
use crate::text::str_eq;
use crate::supply::{BufferSupplier, SupplyError};

verus! {

/// The routines that are measured.
#[derive(Clone, Copy, Debug, PartialEq, Eq, Structural)]
pub enum Operation {
    Memcpy,
    Memset,
}

/// The implementations of a routine.
#[derive(Clone, Copy, Debug, PartialEq, Eq, Structural)]
pub enum Implementation {
    /// 16-byte SSE moves (`memcpy` under the name "sse")
    Sse,
    /// 16-byte SSE stores after a byte shuffle (`memset` under the name "sse4")
    Sse4,
    /// 32-byte AVX moves
    Avx,
    /// 64-byte AVX-512 moves
    Avx512,
    /// `rep movsb` / `rep stosb`
    Erms,
    /// the portable byte routines of `memops`
    Generic,
}

/// The implementation that `name` selects for `op`, given what the
/// processor supports: a vector implementation only where every feature it
/// is compiled for is detected, the portable one always under "generic",
/// and none for any other name.
pub open spec fn spec_select_implementation(
    op: Operation,
    name: Seq<char>,
    features: &DetectedFeatures,
) -> Option<Implementation> {
    match op {
        Operation::Memcpy => {
            if name == "sse"@ && features.spec_detects(X86Feature::Sse2) {
                Some(Implementation::Sse)
            } else if name == "avx"@ && features.spec_detects(X86Feature::Avx) {
                Some(Implementation::Avx)
            } else if name == "avx512"@ && features.spec_detects(X86Feature::Avx512f) {
                Some(Implementation::Avx512)
            } else if name == "erms"@ && features.spec_detects(X86Feature::Erms) {
                Some(Implementation::Erms)
            } else if name == "generic"@ {
                Some(Implementation::Generic)
            } else {
                None
            }
        },
        Operation::Memset => {
            if name == "sse4"@ && features.spec_detects(X86Feature::Sse3) {
                Some(Implementation::Sse4)
            } else if name == "avx"@ && features.spec_detects(X86Feature::Avx) {
                Some(Implementation::Avx)
            } else if name == "avx512"@ && features.spec_detects(X86Feature::Avx512f)
                && features.spec_detects(X86Feature::Avx512bw) {
                Some(Implementation::Avx512)
            } else if name == "erms"@ && features.spec_detects(X86Feature::Erms) {
                Some(Implementation::Erms)
            } else if name == "generic"@ {
                Some(Implementation::Generic)
            } else {
                None
            }
        },
    }
}

/// Selects the implementation of `op` that `name` stands for, `None` where
/// the name is unknown for `op` or the processor lacks a needed feature.
pub fn select_implementation(op: Operation, name: &str, features: &DetectedFeatures) -> (r: Option<
    Implementation,
>)
    ensures
        r == spec_select_implementation(op, name@, features),
{
    match op {
        Operation::Memcpy => {
            if str_eq(name, "sse") && features.detects(X86Feature::Sse2) {
                Some(Implementation::Sse)
            } else if str_eq(name, "avx") && features.detects(X86Feature::Avx) {
                Some(Implementation::Avx)
            } else if str_eq(name, "avx512") && features.detects(X86Feature::Avx512f) {
                Some(Implementation::Avx512)
            } else if str_eq(name, "erms") && features.detects(X86Feature::Erms) {
                Some(Implementation::Erms)
            } else if str_eq(name, "generic") {
                Some(Implementation::Generic)
            } else {
                None
            }
        },
        Operation::Memset => {
            if str_eq(name, "sse4") && features.detects(X86Feature::Sse3) {
                Some(Implementation::Sse4)
            } else if str_eq(name, "avx") && features.detects(X86Feature::Avx) {
                Some(Implementation::Avx)
            } else if str_eq(name, "avx512") && features.detects(X86Feature::Avx512f)
                && features.detects(X86Feature::Avx512bw) {
                Some(Implementation::Avx512)
            } else if str_eq(name, "erms") && features.detects(X86Feature::Erms) {
                Some(Implementation::Erms)
            } else if str_eq(name, "generic") {
                Some(Implementation::Generic)
            } else {
                None
            }
        },
    }
}


/// The portable implementation is selected under "generic" whatever the
/// processor supports.
pub proof fn lemma_generic_always_selected(op: Operation, features: &DetectedFeatures)
    ensures
        spec_select_implementation(op, "generic"@, features) == Some(Implementation::Generic),
{
    reveal_strlit("generic");
    reveal_strlit("sse");
    reveal_strlit("sse4");
    reveal_strlit("avx");
    reveal_strlit("avx512");
    reveal_strlit("erms");
    assert("generic"@.len() != "sse"@.len());
    assert("generic"@.len() != "sse4"@.len());
    assert("generic"@.len() != "avx"@.len());
    assert("generic"@.len() != "avx512"@.len());
    assert("generic"@.len() != "erms"@.len());
}

/// A vector implementation is selected only where every feature it is
/// compiled for is detected.
pub proof fn lemma_selection_needs_features(
    op: Operation,
    name: Seq<char>,
    features: &DetectedFeatures,
)
    ensures
        spec_select_implementation(op, name, features) == Some(Implementation::Sse) ==> op
            == Operation::Memcpy && features.spec_detects(X86Feature::Sse2),
        spec_select_implementation(op, name, features) == Some(Implementation::Sse4) ==> op
            == Operation::Memset && features.spec_detects(X86Feature::Sse3),
        spec_select_implementation(op, name, features) == Some(Implementation::Avx)
            ==> features.spec_detects(X86Feature::Avx),
        spec_select_implementation(op, name, features) == Some(Implementation::Avx512)
            ==> features.spec_detects(X86Feature::Avx512f),
        spec_select_implementation(op, name, features) == Some(Implementation::Avx512) && op
            == Operation::Memset ==> features.spec_detects(X86Feature::Avx512bw),
        spec_select_implementation(op, name, features) == Some(Implementation::Erms)
            ==> features.spec_detects(X86Feature::Erms),
        spec_select_implementation(op, name, features) == Some(Implementation::Generic) ==> name
            == "generic"@,
{
}


/// The two buffers of one `memcpy` measurement.
pub struct CopyBuffers {
    pub dest: Box<[u8]>,
    pub src: Box<[u8]>,
}

/// The buffer and the fill value of one `memset` measurement.
pub struct FillBuffer {
    pub dest: Box<[u8]>,
    pub val: i32,
}

/// Takes a destination and a source buffer from the supplier, in that
/// order. Both have the supplier's length, so copying `src.len()` bytes
/// stays inside `dest`.
pub fn prepare_copy<F: BufferSupplier>(supplier: &F) -> (r: Result<CopyBuffers, SupplyError>)
    ensures
        r matches Ok(b) ==> {
            &&& b.dest@.len() == supplier.buffer_len()
            &&& b.src@.len() == supplier.buffer_len()
        },
        supplier.known_buffer() matches Some(c) ==> (r matches Ok(b) && b.dest@ == c && b.src@
            == c),
{
    let dest = match supplier.get() {
        Ok(b) => b,
        Err(e) => return Err(e),
    };
    let src = match supplier.get() {
        Ok(b) => b,
        Err(e) => return Err(e),
    };
    Ok(CopyBuffers { dest, src })
}

/// Takes a destination buffer and then a fill byte from the supplier; the
/// byte is widened to the `int` that `memset` takes.
pub fn prepare_fill<F: BufferSupplier>(supplier: &F) -> (r: Result<FillBuffer, SupplyError>)
    ensures
        r matches Ok(b) ==> {
            &&& b.dest@.len() == supplier.buffer_len()
            &&& 0 <= b.val < 256
        },
        supplier.known_buffer() matches Some(c) ==> (r matches Ok(b) ==> b.dest@ == c),
        supplier.known_byte() matches Some(v) ==> (r matches Ok(b) ==> b.val == v),
        supplier.known_buffer() is Some && supplier.known_byte() is Some ==> (r matches Ok(b)
            && b.dest@ == supplier.known_buffer()->0 && b.val == supplier.known_byte()->0),
{
    let dest = match supplier.get() {
        Ok(b) => b,
        Err(e) => return Err(e),
    };
    let byte = match supplier.get_single_byte() {
        Ok(v) => v,
        Err(e) => return Err(e),
    };
    Ok(FillBuffer { dest, val: byte as i32 })
}


impl CopyBuffers {
    /// Copies all of `src` into the front of `dest` with the portable routine.
    pub fn run_generic(&mut self)
        requires
            old(self).src@.len() <= old(self).dest@.len(),
        ensures
            final(self).dest@ == crate::memops::spec_memcpy(
                old(self).dest@,
                old(self).src@,
                old(self).src@.len() as int,
            ),
            final(self).src@ == old(self).src@,
    {
        let len = self.src.len();
        crate::memops::__memcpy_generic(&mut self.dest, &self.src, len);
    }
}


impl FillBuffer {
    /// Sets every byte of `dest` to `val` with the portable routine.
    pub fn run_generic(&mut self)
        ensures
            final(self).dest@ == Seq::new(old(self).dest@.len(), |i: int| old(self).val as u8),
            final(self).val == old(self).val,
    {
        let len = self.dest.len();
        crate::memops::__memset_generic(&mut self.dest, self.val, len);
        assert(self.dest@ =~= Seq::new(old(self).dest@.len(), |i: int| old(self).val as u8));
    }
}

/// Every implementation whose features are all detected is selected under
/// its name, for both routines; "sse" names only the `memcpy` one and
/// "sse4" only the `memset` one.
pub proof fn lemma_detected_features_select(features: &DetectedFeatures)
    ensures
        features.spec_detects(X86Feature::Sse2) ==> spec_select_implementation(
            Operation::Memcpy,
            "sse"@,
            features,
        ) == Some(Implementation::Sse),
        features.spec_detects(X86Feature::Avx) ==> spec_select_implementation(
            Operation::Memcpy,
            "avx"@,
            features,
        ) == Some(Implementation::Avx),
        features.spec_detects(X86Feature::Avx512f) ==> spec_select_implementation(
            Operation::Memcpy,
            "avx512"@,
            features,
        ) == Some(Implementation::Avx512),
        features.spec_detects(X86Feature::Erms) ==> spec_select_implementation(
            Operation::Memcpy,
            "erms"@,
            features,
        ) == Some(Implementation::Erms),
        features.spec_detects(X86Feature::Sse3) ==> spec_select_implementation(
            Operation::Memset,
            "sse4"@,
            features,
        ) == Some(Implementation::Sse4),
        features.spec_detects(X86Feature::Avx) ==> spec_select_implementation(
            Operation::Memset,
            "avx"@,
            features,
        ) == Some(Implementation::Avx),
        features.spec_detects(X86Feature::Avx512f) && features.spec_detects(X86Feature::Avx512bw)
            ==> spec_select_implementation(Operation::Memset, "avx512"@, features) == Some(
            Implementation::Avx512,
        ),
        features.spec_detects(X86Feature::Erms) ==> spec_select_implementation(
            Operation::Memset,
            "erms"@,
            features,
        ) == Some(Implementation::Erms),
        spec_select_implementation(Operation::Memset, "sse"@, features) == None::<Implementation>,
        spec_select_implementation(Operation::Memcpy, "sse4"@, features) == None::<Implementation>,
{
    reveal_strlit("sse");
    reveal_strlit("sse4");
    reveal_strlit("avx");
    reveal_strlit("avx512");
    reveal_strlit("erms");
    reveal_strlit("generic");
    assert("sse"@.len() != "sse4"@.len());
    assert("sse"@[0] != "avx"@[0]);
    assert("sse4"@.len() != "avx"@.len());
    assert("sse"@.len() != "avx512"@.len());
    assert("sse4"@.len() != "avx512"@.len());
    assert("avx"@.len() != "avx512"@.len());
    assert("sse"@.len() != "erms"@.len());
    assert("sse4"@[0] != "erms"@[0]);
    assert("avx"@.len() != "erms"@.len());
    assert("avx512"@.len() != "erms"@.len());
    assert("sse"@.len() != "generic"@.len());
    assert("sse4"@.len() != "generic"@.len());
    assert("avx"@.len() != "generic"@.len());
    assert("avx512"@.len() != "generic"@.len());
    assert("erms"@.len() != "generic"@.len());
}

/// A name that is none of "sse", "sse4", "avx", "avx512", "erms" and
/// "generic" selects nothing.
pub proof fn lemma_unknown_name_selects_nothing(
    op: Operation,
    name: Seq<char>,
    features: &DetectedFeatures,
)
    requires
        name != "sse"@,
        name != "sse4"@,
        name != "avx"@,
        name != "avx512"@,
        name != "erms"@,
        name != "generic"@,
    ensures
        spec_select_implementation(op, name, features) == None::<Implementation>,
{
}

} // verus!
