//! The unit of work handed to the remote provers.

use crate::limits::MAX_NUM_SUBBLOCKS;
use vstd::prelude::*;

verus! {

/// Everything the remote provers need to prove one block: the block's
/// number, the aggregator's input, and for each subblock its input and its
/// public values. There is at least one subblock and at most
/// [`MAX_NUM_SUBBLOCKS`].
#[derive(Debug, PartialEq, Eq)]
pub struct ProvingInputs {
    block_number: u64,
    agg_input: Vec<u8>,
    subblock_inputs: Vec<Vec<u8>>,
    subblock_public_values: Vec<Vec<u8>>,
}

/// Mathematical value of [`ProvingInputs`].
pub struct InputsView {
    /// Number of the block to prove.
    pub block_number: u64,
    /// Serialized input of the aggregator.
    pub agg_input: Seq<u8>,
    /// Serialized input of each subblock.
    pub subblock_inputs: Seq<Seq<u8>>,
    /// Public values of each subblock.
    pub subblock_public_values: Seq<Seq<u8>>,
}

/// Why four parts make no proving inputs.
#[derive(Clone, Copy, Debug, PartialEq, Eq, Structural)]
pub enum InputsError {
    /// There is no subblock input.
    NoSubblocks,
    /// There are more subblock inputs than a block has subblocks.
    TooManySubblocks,
    /// The public values are not as many as the subblock inputs.
    CountMismatch,
}

impl InputsView {
    /// There is at least one subblock and at most [`MAX_NUM_SUBBLOCKS`], and
    /// each has its public values.
    pub open spec fn well_formed(self) -> bool {
        &&& self.subblock_inputs.len() == self.subblock_public_values.len()
        &&& 1 <= self.subblock_inputs.len() <= MAX_NUM_SUBBLOCKS
    }

    /// What is wrong with these parts, if anything.
    pub open spec fn fault(self) -> Option<InputsError> {
        if self.subblock_inputs.len() == 0 {
            Some(InputsError::NoSubblocks)
        } else if self.subblock_inputs.len() > MAX_NUM_SUBBLOCKS {
            Some(InputsError::TooManySubblocks)
        } else if self.subblock_public_values.len() != self.subblock_inputs.len() {
            Some(InputsError::CountMismatch)
        } else {
            None
        }
    }
}

impl View for ProvingInputs {
    type V = InputsView;

    closed spec fn view(&self) -> InputsView {
        InputsView {
            block_number: self.block_number,
            agg_input: self.agg_input@,
            subblock_inputs: self.subblock_inputs.deep_view(),
            subblock_public_values: self.subblock_public_values.deep_view(),
        }
    }
}

/// The value of a list of byte strings holds the value of each of them.
pub proof fn lemma_byte_strings_index(list: Vec<Vec<u8>>, i: int)
    requires
        0 <= i < list.len(),
    ensures
        list.deep_view().len() == list.len(),
        list.deep_view()[i] == list[i]@,
{
    assert(list.deep_view()[i] =~= list[i]@);
}

/// A list of byte strings grown by one has the value of the list before,
/// followed by the value of the new one.
pub proof fn lemma_byte_strings_push(before: Vec<Vec<u8>>, after: Vec<Vec<u8>>, item: Vec<u8>)
    requires
        after@ == before@.push(item),
    ensures
        after.deep_view() == before.deep_view().push(item@),
{
    assert(after.deep_view().len() == before.deep_view().len() + 1);
    assert forall|i: int| 0 <= i < after.deep_view().len() implies after.deep_view()[i]
        == before.deep_view().push(item@)[i] by {
        lemma_byte_strings_index(after, i);
        if i < before.len() {
            lemma_byte_strings_index(before, i);
        }
    }
    assert(after.deep_view() =~= before.deep_view().push(item@));
}

/// Copies a list of byte strings.
pub fn copy_byte_strings(list: &Vec<Vec<u8>>) -> (copy: Vec<Vec<u8>>)
    ensures
        copy.deep_view() == list.deep_view(),
{
    let mut copy: Vec<Vec<u8>> = Vec::with_capacity(list.len());
    let mut i: usize = 0;
    while i < list.len()
        invariant
            i <= list.len(),
            copy.len() == i,
            forall|j: int| 0 <= j < i ==> copy[j]@ == list[j]@,
        decreases list.len() - i,
    {
        copy.push(list[i].clone());
        i += 1;
    }
    assert(copy.deep_view() =~= list.deep_view());
    copy
}

impl Clone for ProvingInputs {
    fn clone(&self) -> (copy: Self)
        ensures
            copy@ == self@,
    {
        proof {
            use_type_invariant(self);
        }
        ProvingInputs {
            block_number: self.block_number,
            agg_input: self.agg_input.clone(),
            subblock_inputs: copy_byte_strings(&self.subblock_inputs),
            subblock_public_values: copy_byte_strings(&self.subblock_public_values),
        }
    }
}

impl ProvingInputs {
    #[verifier::type_invariant]
    spec fn inv(self) -> bool {
        self@.well_formed()
    }

    /// Bundles the four parts, where they fit together: at least one
    /// subblock input, at most [`MAX_NUM_SUBBLOCKS`], and as many public
    /// values.
    pub fn new(
        block_number: u64,
        agg_input: Vec<u8>,
        subblock_inputs: Vec<Vec<u8>>,
        subblock_public_values: Vec<Vec<u8>>,
    ) -> (made: Result<Self, InputsError>)
        ensures
            ({
                let parts = InputsView {
                    block_number,
                    agg_input: agg_input@,
                    subblock_inputs: subblock_inputs.deep_view(),
                    subblock_public_values: subblock_public_values.deep_view(),
                };
                match made {
                    Ok(inputs) => parts.fault() is None && inputs@ == parts,
                    Err(e) => parts.fault() == Some(e),
                }
            }),
    {
        if subblock_inputs.len() == 0 {
            return Err(InputsError::NoSubblocks);
        }
        if subblock_inputs.len() > MAX_NUM_SUBBLOCKS {
            return Err(InputsError::TooManySubblocks);
        }
        if subblock_public_values.len() != subblock_inputs.len() {
            return Err(InputsError::CountMismatch);
        }
        Ok(ProvingInputs { block_number, agg_input, subblock_inputs, subblock_public_values })
    }

    /// Number of the block to prove.
    pub fn block_number(&self) -> (n: u64)
        ensures
            n == self@.block_number,
    {
        self.block_number
    }

    /// Serialized input of the aggregator.
    pub fn agg_input(&self) -> (bytes: &Vec<u8>)
        ensures
            bytes@ == self@.agg_input,
    {
        &self.agg_input
    }

    /// Serialized input of each subblock.
    pub fn subblock_inputs(&self) -> (list: &Vec<Vec<u8>>)
        ensures
            list.deep_view() == self@.subblock_inputs,
            self@.well_formed(),
    {
        proof {
            use_type_invariant(self);
        }
        &self.subblock_inputs
    }

    /// Public values of each subblock, one per subblock input.
    pub fn subblock_public_values(&self) -> (list: &Vec<Vec<u8>>)
        ensures
            list.deep_view() == self@.subblock_public_values,
            self@.well_formed(),
    {
        proof {
            use_type_invariant(self);
        }
        &self.subblock_public_values
    }

    /// Number of subblocks: between one and [`MAX_NUM_SUBBLOCKS`].
    pub fn num_subblocks(&self) -> (k: usize)
        ensures
            k == self@.subblock_inputs.len(),
            k == self@.subblock_public_values.len(),
            1 <= k <= MAX_NUM_SUBBLOCKS,
    {
        proof {
            use_type_invariant(self);
        }
        self.subblock_inputs.len()
    }
}

/// Parts are free of fault exactly when they are well formed.
pub proof fn lemma_fault_free_is_well_formed(parts: InputsView)
    ensures
        parts.fault() is None <==> parts.well_formed(),
{
}

} // verus!
