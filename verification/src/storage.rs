//! Proving inputs on disk: where each part of a block's inputs is kept, what
//! is written there, and how the parts read back make inputs again.
//!
//! The inputs of block `N` are kept under `<root>/block<N>/gas10000000/`.

use crate::byte_lists::{
    lemma_read_stored, lemma_vec_is_storable, list_in, read_list, storable, store_list,
    stored_list,
};
use crate::inputs::{
    lemma_byte_strings_index, lemma_byte_strings_push, InputsError, InputsView, ProvingInputs,
};
use crate::limits::MAX_NUM_SUBBLOCKS;
use crate::text::{decimal, lemma_decimal_is_injective, lemma_decimal_value, push_decimal};
use vstd::prelude::*;
use vstd::string::*;

verus! {

/// Name of the one directory below a block's directory. It is a fixed
/// word; what it stands for is not recorded.
pub const GAS_DIR: &'static str = "gas10000000";

/// The directory of block `block_number` under the root `dir`.
pub open spec fn block_dir_of(block_number: u64, dir: Seq<char>) -> Seq<char> {
    dir + "/block"@ + decimal(block_number as nat) + "/"@ + GAS_DIR@
}

/// The file of the subblocks' public values.
pub open spec fn public_values_path_of(block_number: u64, dir: Seq<char>) -> Seq<char> {
    block_dir_of(block_number, dir) + "/public_values.bin"@
}

/// The file of the aggregator's input.
pub open spec fn agg_input_path_of(block_number: u64, dir: Seq<char>) -> Seq<char> {
    block_dir_of(block_number, dir) + "/final_aggregator_stdin_builder.bin"@
}

/// The file of the input of the subblock `index`.
pub open spec fn subblock_input_path_of(block_number: u64, dir: Seq<char>, index: nat) -> Seq<
    char,
> {
    block_dir_of(block_number, dir) + "/subblock_stdin_builder_"@ + decimal(index) + ".bin"@
}

/// Names the directory of block `block_number` under the root `dir`.
pub fn block_dir(block_number: u64, dir: &str) -> (path: String)
    ensures
        path@ == block_dir_of(block_number, dir@),
{
    let mut path = String::from_str(dir);
    path.append("/block");
    push_decimal(&mut path, block_number);
    path.append("/");
    path.append(GAS_DIR);
    path
}

/// Names the file of the subblocks' public values.
pub fn public_values_path(block_number: u64, dir: &str) -> (path: String)
    ensures
        path@ == public_values_path_of(block_number, dir@),
{
    let mut path = block_dir(block_number, dir);
    path.append("/public_values.bin");
    path
}

/// Names the file of the aggregator's input.
pub fn agg_input_path(block_number: u64, dir: &str) -> (path: String)
    ensures
        path@ == agg_input_path_of(block_number, dir@),
{
    let mut path = block_dir(block_number, dir);
    path.append("/final_aggregator_stdin_builder.bin");
    path
}

/// Names the file of the input of the subblock `index`.
pub fn subblock_input_path(block_number: u64, dir: &str, index: usize) -> (path: String)
    ensures
        path@ == subblock_input_path_of(block_number, dir@, index as nat),
{
    let mut path = block_dir(block_number, dir);
    path.append("/subblock_stdin_builder_");
    push_decimal(&mut path, index as u64);
    path.append(".bin");
    path
}

/// One file to write.
#[derive(Debug, PartialEq, Eq)]
pub struct DumpFile {
    pub path: String,
    pub contents: Vec<u8>,
}

impl View for DumpFile {
    type V = (Seq<char>, Seq<u8>);

    open spec fn view(&self) -> (Seq<char>, Seq<u8>) {
        (self.path@, self.contents@)
    }
}

/// The files that hold `inputs` under the root `dir`, in the order in which
/// they are written: the public values in their stored form
/// `public_values`, the aggregator's input, then each subblock's input.
pub open spec fn dump_of(inputs: InputsView, dir: Seq<char>, public_values: Seq<u8>) -> Seq<
    (Seq<char>, Seq<u8>),
> {
    seq![
        (public_values_path_of(inputs.block_number, dir), public_values),
        (agg_input_path_of(inputs.block_number, dir), inputs.agg_input),
    ] + Seq::new(
        inputs.subblock_inputs.len(),
        |i: int|
            (subblock_input_path_of(inputs.block_number, dir, i as nat), inputs.subblock_inputs[i]),
    )
}

/// The paths and contents of a list of files.
pub open spec fn files_view(files: Seq<DumpFile>) -> Seq<(Seq<char>, Seq<u8>)> {
    files.map_values(|f: DumpFile| f@)
}

/// Why stored parts make no inputs.
#[derive(Clone, Copy, Debug, PartialEq, Eq, Structural)]
pub enum LoadError {
    /// The file of the public values is not there.
    MissingPublicValues,
    /// The file of the aggregator's input is not there.
    MissingAggInput,
    /// The file of the public values does not hold a list of byte strings.
    PublicValues,
    /// The parts do not fit together.
    Inputs(InputsError),
}

/// The inputs that stored parts make, or why they make none.
pub open spec fn load_of(
    block_number: u64,
    public_values: Seq<u8>,
    agg_input: Seq<u8>,
    subblock_inputs: Seq<Seq<u8>>,
) -> Result<InputsView, LoadError> {
    match list_in(public_values) {
        None => Err(LoadError::PublicValues),
        Some(values) => {
            let parts = InputsView {
                block_number,
                agg_input,
                subblock_inputs,
                subblock_public_values: values,
            };
            match parts.fault() {
                Some(e) => Err(LoadError::Inputs(e)),
                None => Ok(parts),
            }
        },
    }
}

/// The contents of the first of `files` that has the path `path`.
pub open spec fn file_at(files: Seq<(Seq<char>, Seq<u8>)>, path: Seq<char>) -> Option<Seq<u8>>
    decreases files.len(),
{
    if files.len() == 0 {
        None
    } else if files[0].0 == path {
        Some(files[0].1)
    } else {
        file_at(files.skip(1), path)
    }
}

/// The subblock inputs found among `files` from the index `from` on: those
/// of the indices that follow each other without a gap, up to the largest
/// index a block can have.
pub open spec fn subblocks_in(
    files: Seq<(Seq<char>, Seq<u8>)>,
    block_number: u64,
    dir: Seq<char>,
    from: nat,
) -> Seq<Seq<u8>>
    decreases MAX_NUM_SUBBLOCKS - from,
{
    if from >= MAX_NUM_SUBBLOCKS {
        Seq::empty()
    } else {
        match file_at(files, subblock_input_path_of(block_number, dir, from)) {
            None => Seq::empty(),
            Some(contents) => seq![contents] + subblocks_in(files, block_number, dir, from + 1),
        }
    }
}

/// The inputs of block `block_number` that `files` hold under the root
/// `dir`, or why they hold none.
pub open spec fn load_from(files: Seq<(Seq<char>, Seq<u8>)>, block_number: u64, dir: Seq<char>)
    -> Result<InputsView, LoadError> {
    match file_at(files, public_values_path_of(block_number, dir)) {
        None => Err(LoadError::MissingPublicValues),
        Some(public_values) => match file_at(files, agg_input_path_of(block_number, dir)) {
            None => Err(LoadError::MissingAggInput),
            Some(agg_input) => load_of(
                block_number,
                public_values,
                agg_input,
                subblocks_in(files, block_number, dir, 0),
            ),
        },
    }
}

/// Every path at which a part of the inputs of block `block_number` may be
/// kept under the root `dir`: the file of the public values, that of the
/// aggregator's input, and that of each subblock a block can have.
pub fn candidate_paths(block_number: u64, dir: &str) -> (paths: Vec<String>)
    ensures
        paths.len() == 2 + MAX_NUM_SUBBLOCKS,
        paths[0]@ == public_values_path_of(block_number, dir@),
        paths[1]@ == agg_input_path_of(block_number, dir@),
        forall|i: int|
            0 <= i < MAX_NUM_SUBBLOCKS ==> (#[trigger] paths[i + 2])@ == subblock_input_path_of(
                block_number,
                dir@,
                i as nat,
            ),
{
    let mut paths: Vec<String> = Vec::new();
    paths.push(public_values_path(block_number, dir));
    paths.push(agg_input_path(block_number, dir));
    let mut i: usize = 0;
    while i < MAX_NUM_SUBBLOCKS
        invariant
            i <= MAX_NUM_SUBBLOCKS,
            paths.len() == i + 2,
            paths[0]@ == public_values_path_of(block_number, dir@),
            paths[1]@ == agg_input_path_of(block_number, dir@),
            forall|j: int|
                0 <= j < i ==> (#[trigger] paths[j + 2])@ == subblock_input_path_of(
                    block_number,
                    dir@,
                    j as nat,
                ),
        decreases MAX_NUM_SUBBLOCKS - i,
    {
        paths.push(subblock_input_path(block_number, dir, i));
        i += 1;
    }
    paths
}

fn find_file<'a>(files: &'a Vec<DumpFile>, path: &String) -> (found: Option<&'a Vec<u8>>)
    ensures
        match found {
            Some(contents) => file_at(files_view(files@), path@) == Some(contents@),
            None => file_at(files_view(files@), path@) is None,
        },
{
    let ghost all = files_view(files@);
    let mut i: usize = 0;
    assert(all.skip(0) =~= all);
    while i < files.len()
        invariant
            i <= files.len(),
            all == files_view(files@),
            file_at(all, path@) == file_at(all.skip(i as int), path@),
        decreases files.len() - i,
    {
        assert(all.skip(i as int)[0] == files[i as int]@);
        if files[i].path == *path {
            return Some(&files[i].contents);
        }
        assert(all.skip(i as int).skip(1) =~= all.skip(i + 1));
        i += 1;
    }
    None
}

/// Makes the inputs of block `block_number` of the files read from under
/// the root `dir`. The public values and the aggregator's input must be
/// among them. The subblock inputs are those of the indices from zero on
/// that follow each other without a gap.
pub fn load_from_dump(block_number: u64, dir: &str, files: &Vec<DumpFile>) -> (loaded: Result<
    ProvingInputs,
    LoadError,
>)
    ensures
        match loaded {
            Ok(inputs) => load_from(files_view(files@), block_number, dir@) == Ok::<
                InputsView,
                LoadError,
            >(inputs@) && inputs@.well_formed(),
            Err(e) => load_from(files_view(files@), block_number, dir@) == Err::<
                InputsView,
                LoadError,
            >(e),
        },
{
    let ghost all = files_view(files@);
    let public_values = match find_file(files, &public_values_path(block_number, dir)) {
        Some(contents) => contents,
        None => {
            return Err(LoadError::MissingPublicValues);
        },
    };
    let agg_input = match find_file(files, &agg_input_path(block_number, dir)) {
        Some(contents) => contents,
        None => {
            return Err(LoadError::MissingAggInput);
        },
    };
    let mut subblock_inputs: Vec<Vec<u8>> = Vec::new();
    let mut more = true;
    let mut i: usize = 0;
    while more && i < MAX_NUM_SUBBLOCKS
        invariant
            i <= MAX_NUM_SUBBLOCKS,
            all == files_view(files@),
            subblocks_in(all, block_number, dir@, 0) == subblock_inputs.deep_view() + (if more {
                subblocks_in(all, block_number, dir@, i as nat)
            } else {
                Seq::empty()
            }),
        decreases MAX_NUM_SUBBLOCKS - i + (if more { 1int } else { 0int }),
    {
        let ghost before = subblock_inputs.deep_view();
        let ghost list_before = subblock_inputs;
        match find_file(files, &subblock_input_path(block_number, dir, i)) {
            Some(contents) => {
                let copy = contents.clone();
                subblock_inputs.push(copy);
                proof {
                    lemma_byte_strings_push(list_before, subblock_inputs, copy);
                }
                assert(subblock_inputs.deep_view() =~= before + seq![contents@]);
                assert(before + (seq![contents@] + subblocks_in(
                    all,
                    block_number,
                    dir@,
                    (i + 1) as nat,
                )) =~= subblock_inputs.deep_view() + subblocks_in(
                    all,
                    block_number,
                    dir@,
                    (i + 1) as nat,
                ));
                i += 1;
            },
            None => {
                more = false;
            },
        }
    }
    assert(subblocks_in(all, block_number, dir@, 0) =~= subblock_inputs.deep_view());
    ProvingInputs::load_from_files(
        block_number,
        public_values.as_slice(),
        agg_input.clone(),
        subblock_inputs,
    )
}

impl ProvingInputs {
    /// Lists the files that hold these inputs under the root `dir`, given
    /// the stored form of the public values.
    pub fn dump_files_with(&self, dir: &str, public_values: Vec<u8>) -> (files: Vec<DumpFile>)
        ensures
            files_view(files@) == dump_of(self@, dir@, public_values@),
    {
        let ghost want = dump_of(self@, dir@, public_values@);
        let block_number = self.block_number();
        let sources = self.subblock_inputs();
        let mut files: Vec<DumpFile> = Vec::new();
        files.push(DumpFile { path: public_values_path(block_number, dir), contents: public_values });
        files.push(
            DumpFile { path: agg_input_path(block_number, dir), contents: self.agg_input().clone() },
        );
        let mut i: usize = 0;
        while i < sources.len()
            invariant
                i <= sources.len(),
                block_number == self@.block_number,
                sources.deep_view() == self@.subblock_inputs,
                want == dump_of(self@, dir@, public_values@),
                files.len() == i + 2,
                forall|j: int| 0 <= j < i + 2 ==> (#[trigger] files[j])@ == want[j],
            decreases sources.len() - i,
        {
            proof {
                lemma_byte_strings_index(*sources, i as int);
            }
            files.push(
                DumpFile {
                    path: subblock_input_path(block_number, dir, i),
                    contents: sources[i].clone(),
                },
            );
            i += 1;
        }
        assert(files_view(files@) =~= want);
        files
    }

    /// Lists the files that hold these inputs under the root `dir`, the
    /// public values in their stored form. The result is never `None`, and
    /// the files listed, read again, make these very inputs.
    pub fn dump_files(&self, dir: &str) -> (files: Option<Vec<DumpFile>>)
        ensures
            files matches Some(f) && {
                &&& files_view(f@) == dump_of(
                    self@,
                    dir@,
                    stored_list(self@.subblock_public_values),
                )
                &&& load_from(files_view(f@), self@.block_number, dir@) == Ok::<
                    InputsView,
                    LoadError,
                >(self@)
            },
    {
        let values = self.subblock_public_values();
        match store_list(values) {
            Some(public_values) => {
                proof {
                    lemma_vec_is_storable(*values);
                    lemma_dump_then_load_from_disk(self@, dir@);
                }
                Some(self.dump_files_with(dir, public_values))
            },
            None => None,
        }
    }

    /// Makes inputs of the parts read from a block's files: the contents of
    /// the file of the public values, those of the file of the aggregator's
    /// input, and those of the subblocks' files, in the order of their
    /// indices. Inputs that come out are well formed.
    pub fn load_from_files(
        block_number: u64,
        public_values: &[u8],
        agg_input: Vec<u8>,
        subblock_inputs: Vec<Vec<u8>>,
    ) -> (loaded: Result<ProvingInputs, LoadError>)
        ensures
            match loaded {
                Ok(inputs) => load_of(
                    block_number,
                    public_values@,
                    agg_input@,
                    subblock_inputs.deep_view(),
                ) == Ok::<InputsView, LoadError>(inputs@) && inputs@.well_formed(),
                Err(e) => load_of(
                    block_number,
                    public_values@,
                    agg_input@,
                    subblock_inputs.deep_view(),
                ) == Err::<InputsView, LoadError>(e),
            },
    {
        let values = match read_list(public_values) {
            Some(values) => values,
            None => {
                return Err(LoadError::PublicValues);
            },
        };
        match ProvingInputs::new(block_number, agg_input, subblock_inputs, values) {
            Ok(inputs) => Ok(inputs),
            Err(e) => Err(LoadError::Inputs(e)),
        }
    }
}

/// The contents of the files from the third on: the subblocks' inputs.
pub open spec fn subblock_contents(files: Seq<(Seq<char>, Seq<u8>)>) -> Seq<Seq<u8>> {
    files.skip(2).map_values(|f: (Seq<char>, Seq<u8>)| f.1)
}

/// Inputs written and read again are the same inputs: the parts that the
/// files of well-formed inputs hold make these very inputs.
pub proof fn lemma_dump_then_load(inputs: InputsView, dir: Seq<char>)
    requires
        inputs.well_formed(),
        storable(inputs.subblock_public_values),
    ensures
        ({
            let files = dump_of(inputs, dir, stored_list(inputs.subblock_public_values));
            load_of(inputs.block_number, files[0].1, files[1].1, subblock_contents(files)) == Ok::<
                InputsView,
                LoadError,
            >(inputs)
        }),
{
    let files = dump_of(inputs, dir, stored_list(inputs.subblock_public_values));
    lemma_read_stored(inputs.subblock_public_values, Seq::empty());
    assert(stored_list(inputs.subblock_public_values) + Seq::<u8>::empty() =~= stored_list(
        inputs.subblock_public_values,
    ));
    assert(subblock_contents(files) =~= inputs.subblock_inputs);
}

/// Every file of a block's inputs lies in the block's directory, which is
/// the root, `/block`, the block number in decimal digits, `/` and the
/// fixed word.
pub proof fn lemma_files_lie_in_block_dir(inputs: InputsView, dir: Seq<char>, stored: Seq<u8>, i: int)
    requires
        0 <= i < dump_of(inputs, dir, stored).len(),
    ensures
        block_dir_of(inputs.block_number, dir).is_prefix_of(dump_of(inputs, dir, stored)[i].0),
        block_dir_of(inputs.block_number, dir) == dir + "/block"@ + decimal(
            inputs.block_number as nat,
        ) + "/"@ + "gas10000000"@,
{
    let base = block_dir_of(inputs.block_number, dir);
    let path = dump_of(inputs, dir, stored)[i].0;
    assert(base =~= path.subrange(0, base.len() as int));
}


proof fn lemma_file_at_first(files: Seq<(Seq<char>, Seq<u8>)>, path: Seq<char>, k: int)
    requires
        0 <= k < files.len(),
        files[k].0 == path,
        forall|j: int| 0 <= j < k ==> (#[trigger] files[j]).0 != path,
    ensures
        file_at(files, path) == Some(files[k].1),
    decreases k,
{
    if k > 0 {
        assert(files[0].0 != path);
        assert forall|j: int| 0 <= j < k - 1 implies (#[trigger] files.skip(1)[j]).0 != path by {
            assert(files.skip(1)[j] == files[j + 1]);
        }
        lemma_file_at_first(files.skip(1), path, k - 1);
    }
}

proof fn lemma_file_at_none(files: Seq<(Seq<char>, Seq<u8>)>, path: Seq<char>)
    requires
        forall|j: int| 0 <= j < files.len() ==> (#[trigger] files[j]).0 != path,
    ensures
        file_at(files, path) is None,
    decreases files.len(),
{
    if files.len() > 0 {
        assert(files[0].0 != path);
        assert forall|j: int| 0 <= j < files.skip(1).len() implies (#[trigger] files.skip(1)[j]).0
            != path by {
            assert(files.skip(1)[j] == files[j + 1]);
        }
        lemma_file_at_none(files.skip(1), path);
    }
}

/// The files of a block's inputs all have different paths: no part is
/// written over another.
pub proof fn lemma_paths_differ(block_number: u64, dir: Seq<char>, i: nat, j: nat)
    ensures
        public_values_path_of(block_number, dir) != agg_input_path_of(block_number, dir),
        public_values_path_of(block_number, dir) != subblock_input_path_of(block_number, dir, i),
        agg_input_path_of(block_number, dir) != subblock_input_path_of(block_number, dir, i),
        subblock_input_path_of(block_number, dir, i) == subblock_input_path_of(
            block_number,
            dir,
            j,
        ) ==> i == j,
{
    reveal_strlit("/public_values.bin");
    reveal_strlit("/final_aggregator_stdin_builder.bin");
    reveal_strlit("/subblock_stdin_builder_");
    reveal_strlit(".bin");
    let base = block_dir_of(block_number, dir);
    let at: int = base.len() as int + 1;
    lemma_decimal_value(i);
    lemma_decimal_value(j);
    assert(public_values_path_of(block_number, dir)[at] == 'p');
    assert(agg_input_path_of(block_number, dir)[at] == 'f');
    assert(subblock_input_path_of(block_number, dir, i)[at] == 's');
    let first = subblock_input_path_of(block_number, dir, i);
    let second = subblock_input_path_of(block_number, dir, j);
    if first == second {
        let front: int = base.len() as int + 24;
        let len_i: int = decimal(i).len() as int;
        let len_j: int = decimal(j).len() as int;
        assert(first.len() == front + len_i + 4);
        assert(second.len() == front + len_j + 4);
        assert(decimal(i) =~= first.subrange(front, front + len_i));
        assert(decimal(j) =~= second.subrange(front, front + len_j));
        lemma_decimal_is_injective(i, j);
    }
}

proof fn lemma_subblocks_in_dump(inputs: InputsView, dir: Seq<char>, stored: Seq<u8>, from: nat)
    requires
        inputs.subblock_inputs.len() <= MAX_NUM_SUBBLOCKS,
        from <= inputs.subblock_inputs.len(),
    ensures
        subblocks_in(dump_of(inputs, dir, stored), inputs.block_number, dir, from)
            == inputs.subblock_inputs.skip(from as int),
    decreases inputs.subblock_inputs.len() - from,
{
    let files = dump_of(inputs, dir, stored);
    let k = inputs.subblock_inputs.len();
    let path = subblock_input_path_of(inputs.block_number, dir, from);
    assert forall|j: int| 0 <= j < files.len() && j != from + 2 implies (#[trigger] files[j]).0
        != path by {
        lemma_paths_differ(inputs.block_number, dir, from, (j - 2) as nat);
    }
    if from == k {
        if from < MAX_NUM_SUBBLOCKS {
            lemma_file_at_none(files, path);
        }
        assert(inputs.subblock_inputs.skip(from as int) =~= Seq::<Seq<u8>>::empty());
    } else {
        lemma_file_at_first(files, path, from as int + 2);
        lemma_subblocks_in_dump(inputs, dir, stored, from + 1);
        assert(seq![inputs.subblock_inputs[from as int]] + inputs.subblock_inputs.skip(
            from as int + 1,
        ) =~= inputs.subblock_inputs.skip(from as int));
    }
}

/// Inputs written to disk and read again are the same inputs: what the
/// files of well-formed inputs hold under a root makes these very inputs.
pub proof fn lemma_dump_then_load_from_disk(inputs: InputsView, dir: Seq<char>)
    requires
        inputs.well_formed(),
        storable(inputs.subblock_public_values),
    ensures
        load_from(
            dump_of(inputs, dir, stored_list(inputs.subblock_public_values)),
            inputs.block_number,
            dir,
        ) == Ok::<InputsView, LoadError>(inputs),
{
    let stored = stored_list(inputs.subblock_public_values);
    let files = dump_of(inputs, dir, stored);
    lemma_paths_differ(inputs.block_number, dir, 0, 0);
    lemma_file_at_first(files, public_values_path_of(inputs.block_number, dir), 0);
    lemma_file_at_first(files, agg_input_path_of(inputs.block_number, dir), 1);
    lemma_subblocks_in_dump(inputs, dir, stored, 0);
    assert(inputs.subblock_inputs.skip(0) =~= inputs.subblock_inputs);
    lemma_dump_then_load(inputs, dir);
    assert(subblock_contents(files) =~= inputs.subblock_inputs);
}

} // verus!
