use eth_proofs::byte_lists::{read_list, store_list};
use eth_proofs::inputs::{copy_byte_strings, InputsError, ProvingInputs};
use eth_proofs::limits::MAX_NUM_SUBBLOCKS;
use eth_proofs::storage::{
    agg_input_path, block_dir, candidate_paths, load_from_dump, public_values_path,
    subblock_input_path, DumpFile, LoadError,
};

fn parts_with(k: usize) -> Result<ProvingInputs, InputsError> {
    ProvingInputs::new(
        1234,
        vec![9, 9, 9],
        (0..k).map(|i| vec![i as u8; i + 1]).collect(),
        (0..k).map(|i| vec![100 + i as u8, 0]).collect(),
    )
}

fn stored_inputs(k: usize) -> ProvingInputs {
    parts_with(k).unwrap()
}

#[test]
fn block_dir_schema() {
    assert_eq!(block_dir(100, "/data/dump"), "/data/dump/block100/gas10000000");
    assert_eq!(block_dir(0, "dump"), "dump/block0/gas10000000");
    assert_eq!(
        block_dir(u64::MAX, "/r"),
        "/r/block18446744073709551615/gas10000000"
    );
}

#[test]
fn file_paths_lie_in_the_block_dir() {
    assert_eq!(
        public_values_path(7, "/d"),
        "/d/block7/gas10000000/public_values.bin"
    );
    assert_eq!(
        agg_input_path(7, "/d"),
        "/d/block7/gas10000000/final_aggregator_stdin_builder.bin"
    );
    assert_eq!(
        subblock_input_path(7, "/d", 0),
        "/d/block7/gas10000000/subblock_stdin_builder_0.bin"
    );
    assert_eq!(
        subblock_input_path(7, "/d", 6),
        "/d/block7/gas10000000/subblock_stdin_builder_6.bin"
    );
    assert_eq!(
        subblock_input_path(7, "/d", 12),
        "/d/block7/gas10000000/subblock_stdin_builder_12.bin"
    );
}

#[test]
fn stored_list_layout() {
    let list = vec![vec![1u8, 2], vec![], vec![3]];
    let mut expected = vec![];
    expected.extend_from_slice(&3u64.to_le_bytes());
    expected.extend_from_slice(&2u64.to_le_bytes());
    expected.extend_from_slice(&[1, 2]);
    expected.extend_from_slice(&0u64.to_le_bytes());
    expected.extend_from_slice(&1u64.to_le_bytes());
    expected.push(3);
    assert_eq!(store_list(&list), Some(expected));
    assert_eq!(store_list(&vec![]), Some(vec![0; 8]));
}

#[test]
fn read_list_gives_back_what_was_stored() {
    for list in [vec![], vec![vec![]], vec![vec![1u8, 2, 3]], vec![vec![0; 300], vec![255], vec![]]] {
        let stored = store_list(&list).unwrap();
        assert_eq!(read_list(&stored), Some(list.clone()));
        let mut longer = stored.clone();
        longer.extend_from_slice(&[1, 2, 3]);
        assert_eq!(read_list(&longer), Some(list));
    }
}

#[test]
fn read_list_rejects_what_ends_early() {
    let stored = store_list(&vec![vec![1u8, 2, 3], vec![4]]).unwrap();
    for cut in 0..stored.len() {
        assert_eq!(read_list(&stored[..cut]), None, "cut at {}", cut);
    }
    let mut huge = vec![];
    huge.extend_from_slice(&u64::MAX.to_le_bytes());
    huge.extend_from_slice(&[0; 64]);
    assert_eq!(read_list(&huge), None);
}

#[test]
fn dump_lists_every_file_with_its_contents() {
    let given = stored_inputs(3);
    let files = given.dump_files("/root/dump").unwrap();
    let expected = vec![
        DumpFile {
            path: "/root/dump/block1234/gas10000000/public_values.bin".to_string(),
            contents: bincode::serialize(given.subblock_public_values()).unwrap(),
        },
        DumpFile {
            path: "/root/dump/block1234/gas10000000/final_aggregator_stdin_builder.bin".to_string(),
            contents: vec![9, 9, 9],
        },
        DumpFile {
            path: "/root/dump/block1234/gas10000000/subblock_stdin_builder_0.bin".to_string(),
            contents: vec![0],
        },
        DumpFile {
            path: "/root/dump/block1234/gas10000000/subblock_stdin_builder_1.bin".to_string(),
            contents: vec![1, 1],
        },
        DumpFile {
            path: "/root/dump/block1234/gas10000000/subblock_stdin_builder_2.bin".to_string(),
            contents: vec![2, 2, 2],
        },
    ];
    assert_eq!(files, expected);
}

#[test]
fn dump_with_given_public_values_uses_them_as_they_are() {
    let files = stored_inputs(1).dump_files_with("d", vec![7, 7]);
    assert_eq!(files.len(), 3);
    assert_eq!(files[0].path, "d/block1234/gas10000000/public_values.bin");
    assert_eq!(files[0].contents, vec![7, 7]);
    assert_eq!(files[2].contents, vec![0]);
}

#[test]
fn dump_then_load_round_trips() {
    for k in 1..=MAX_NUM_SUBBLOCKS {
        let given = stored_inputs(k);
        let files = given.dump_files("/any/root").unwrap();
        let subblocks: Vec<Vec<u8>> = files[2..].iter().map(|f| f.contents.clone()).collect();
        let loaded = ProvingInputs::load_from_files(
            given.block_number(),
            &files[0].contents,
            files[1].contents.clone(),
            subblocks,
        );
        assert_eq!(loaded, Ok(given));
    }
}

#[test]
fn load_rejects_bad_public_values() {
    let loaded = ProvingInputs::load_from_files(1, &[1, 2, 3], vec![], vec![vec![1]]);
    assert_eq!(loaded, Err(LoadError::PublicValues));
    let loaded = ProvingInputs::load_from_files(1, &[], vec![], vec![]);
    assert_eq!(loaded, Err(LoadError::PublicValues));
}

#[test]
fn load_rejects_a_block_without_subblocks() {
    let values = store_list(&vec![vec![1u8]]).unwrap();
    let loaded = ProvingInputs::load_from_files(1, &values, vec![5], vec![]);
    assert_eq!(loaded, Err(LoadError::Inputs(InputsError::NoSubblocks)));
}

#[test]
fn load_rejects_too_many_subblocks() {
    let values = store_list(&vec![vec![1u8]; 8]).unwrap();
    let loaded = ProvingInputs::load_from_files(1, &values, vec![5], vec![vec![0]; 8]);
    assert_eq!(loaded, Err(LoadError::Inputs(InputsError::TooManySubblocks)));
}

#[test]
fn load_rejects_public_values_that_do_not_match() {
    let values = store_list(&vec![vec![1u8], vec![2]]).unwrap();
    let loaded = ProvingInputs::load_from_files(1, &values, vec![5], vec![vec![0]; 3]);
    assert_eq!(loaded, Err(LoadError::Inputs(InputsError::CountMismatch)));
    let loaded = ProvingInputs::load_from_files(1, &values, vec![5], vec![vec![0]]);
    assert_eq!(loaded, Err(LoadError::Inputs(InputsError::CountMismatch)));
}

#[test]
fn loaded_inputs_hold_the_parts() {
    let values = store_list(&vec![vec![1u8], vec![2]]).unwrap();
    let loaded = ProvingInputs::load_from_files(9, &values, vec![5], vec![vec![3], vec![4]]).unwrap();
    assert_eq!(loaded.block_number(), 9);
    assert_eq!(loaded.agg_input(), &vec![5]);
    assert_eq!(loaded.subblock_inputs(), &vec![vec![3], vec![4]]);
    assert_eq!(loaded.subblock_public_values(), &vec![vec![1], vec![2]]);
    assert_eq!(loaded.num_subblocks(), 2);
    assert_eq!(
        Ok(loaded),
        ProvingInputs::new(9, vec![5], vec![vec![3], vec![4]], vec![vec![1], vec![2]])
    );
}

#[test]
fn inputs_have_one_to_seven_matching_subblocks() {
    assert_eq!(parts_with(0), Err(InputsError::NoSubblocks));
    for k in 1..=7 {
        let made = parts_with(k).unwrap();
        assert_eq!(made.num_subblocks(), k);
        assert_eq!(made.subblock_inputs().len(), made.subblock_public_values().len());
    }
    assert_eq!(parts_with(8), Err(InputsError::TooManySubblocks));
    assert_eq!(parts_with(100), Err(InputsError::TooManySubblocks));
    let uneven = ProvingInputs::new(1, vec![], vec![vec![1], vec![2]], vec![vec![1]]);
    assert_eq!(uneven, Err(InputsError::CountMismatch));
    let uneven = ProvingInputs::new(1, vec![], vec![vec![1]], vec![]);
    assert_eq!(uneven, Err(InputsError::CountMismatch));
    let none = ProvingInputs::new(1, vec![], vec![], vec![vec![1]]);
    assert_eq!(none, Err(InputsError::NoSubblocks));
}

#[test]
fn copies_of_inputs_are_equal() {
    let given = stored_inputs(4);
    assert_eq!(given.clone(), given);
    assert_eq!(&copy_byte_strings(given.subblock_inputs()), given.subblock_inputs());
}

#[test]
fn candidate_paths_name_every_part() {
    let paths = candidate_paths(5, "/r");
    assert_eq!(paths.len(), 9);
    assert_eq!(paths[0], "/r/block5/gas10000000/public_values.bin");
    assert_eq!(paths[1], "/r/block5/gas10000000/final_aggregator_stdin_builder.bin");
    for i in 0..7 {
        assert_eq!(paths[i + 2], format!("/r/block5/gas10000000/subblock_stdin_builder_{}.bin", i));
    }
}

#[test]
fn dump_then_load_from_disk_round_trips() {
    for k in 1..=MAX_NUM_SUBBLOCKS {
        let given = stored_inputs(k);
        let mut files = given.dump_files("/any/root").unwrap();
        assert_eq!(load_from_dump(1234, "/any/root", &files), Ok(given.clone()));
        files.reverse();
        assert_eq!(load_from_dump(1234, "/any/root", &files), Ok(given));
    }
}

#[test]
fn load_from_disk_looks_under_the_given_root_and_block_only() {
    let files = stored_inputs(2).dump_files("/a").unwrap();
    assert_eq!(load_from_dump(1234, "/b", &files), Err(LoadError::MissingPublicValues));
    assert_eq!(load_from_dump(1235, "/a", &files), Err(LoadError::MissingPublicValues));
}

#[test]
fn load_from_disk_fails_on_missing_files() {
    let given = stored_inputs(3);
    let all = given.dump_files("/a").unwrap();

    let without = |skip: usize| -> Vec<DumpFile> {
        let mut files = given.dump_files("/a").unwrap();
        files.remove(skip);
        files
    };
    assert_eq!(all.len(), 5);
    assert_eq!(load_from_dump(1234, "/a", &without(0)), Err(LoadError::MissingPublicValues));
    assert_eq!(load_from_dump(1234, "/a", &without(1)), Err(LoadError::MissingAggInput));
    assert_eq!(
        load_from_dump(1234, "/a", &without(2)),
        Err(LoadError::Inputs(InputsError::NoSubblocks))
    );
    assert_eq!(
        load_from_dump(1234, "/a", &without(3)),
        Err(LoadError::Inputs(InputsError::CountMismatch))
    );
    assert_eq!(
        load_from_dump(1234, "/a", &without(4)),
        Err(LoadError::Inputs(InputsError::CountMismatch))
    );
    assert_eq!(load_from_dump(1234, "/a", &vec![]), Err(LoadError::MissingPublicValues));
}

#[test]
fn load_from_disk_stops_at_the_first_gap() {
    let given = stored_inputs(2);
    let mut files = given.dump_files("/a").unwrap();
    files.push(DumpFile {
        path: subblock_input_path(1234, "/a", 3),
        contents: vec![7],
    });
    assert_eq!(load_from_dump(1234, "/a", &files), Ok(given));
}

#[test]
fn load_from_disk_rejects_bad_public_values() {
    let mut files = stored_inputs(1).dump_files("/a").unwrap();
    files[0].contents = vec![1, 2, 3];
    assert_eq!(load_from_dump(1234, "/a", &files), Err(LoadError::PublicValues));
}

fn layout_of(list: &Vec<Vec<u8>>) -> Vec<u8> {
    let mut out = (list.len() as u64).to_le_bytes().to_vec();
    for item in list {
        out.extend_from_slice(&(item.len() as u64).to_le_bytes());
        out.extend_from_slice(item);
    }
    out
}

#[test]
fn stored_form_is_the_stated_layout_for_many_lists() {
    let mut seed: u64 = 0x2545_F491_4F6C_DD1D;
    let mut next = move || {
        seed ^= seed << 13;
        seed ^= seed >> 7;
        seed ^= seed << 17;
        seed
    };
    for _ in 0..300 {
        let count = (next() % 9) as usize;
        let list: Vec<Vec<u8>> = (0..count)
            .map(|_| {
                let len = (next() % 40) as usize;
                (0..len).map(|_| next() as u8).collect()
            })
            .collect();
        let stored = store_list(&list).unwrap();
        assert_eq!(stored, layout_of(&list));
        assert_eq!(read_list(&stored), Some(list.clone()));
        if !stored.is_empty() {
            let cut = (next() % stored.len() as u64) as usize;
            assert_eq!(read_list(&stored[..cut]), None);
        }
    }
}
