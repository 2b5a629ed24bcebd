use virtualization::file_pool::{
    new_config_local_ro_file, new_config_remote_new_verified_file, prepare_file_pool,
    remote_file_size, FetchedFiles, FileConfig, LocalVerifiedFetch, PoolError,
    RemoteVerifiedFetch,
};
use virtualization::options::{
    parse_local_file_ro_option, parse_local_ro_file_unverified_ro_option,
    parse_remote_new_rw_file_option, parse_remote_ro_file_option,
    parse_remote_ro_file_unverified_option, Args,
};

fn args_with(
    remote_ro: &[&str],
    remote_unverified: &[&str],
    remote_new: &[&str],
    local_ro: &[&str],
    local_unverified: &[&str],
) -> Args {
    Args {
        mount_point: "/mnt/authfs".to_string(),
        cid: 5,
        extra_options: None,
        remote_ro_file: remote_ro.iter().map(|o| parse_remote_ro_file_option(o).unwrap()).collect(),
        remote_ro_file_unverified: remote_unverified
            .iter()
            .map(|o| parse_remote_ro_file_unverified_option(o).unwrap())
            .collect(),
        remote_new_rw_file: remote_new
            .iter()
            .map(|o| parse_remote_new_rw_file_option(o).unwrap())
            .collect(),
        local_ro_file: local_ro.iter().map(|o| parse_local_file_ro_option(o).unwrap()).collect(),
        local_ro_file_unverified: local_unverified
            .iter()
            .map(|o| parse_local_ro_file_unverified_ro_option(o).unwrap())
            .collect(),
        debug: false,
    }
}

fn nothing_fetched() -> FetchedFiles {
    FetchedFiles {
        remote_ro: vec![],
        remote_ro_unverified: vec![],
        local_ro: vec![],
        local_ro_unverified: vec![],
    }
}

#[test]
fn remote_size_conversion() {
    assert_eq!(remote_file_size(0), Ok(0));
    assert_eq!(remote_file_size(4096), Ok(4096));
    assert_eq!(remote_file_size(i64::MAX), Ok(i64::MAX as u64));
    assert_eq!(remote_file_size(-1), Err(PoolError::InvalidFileSize(-1)));
}

#[test]
fn config_constructors_keep_their_inputs() {
    match new_config_local_ro_file("/f", "/t", vec![1, 2], 9) {
        FileConfig::LocalVerifiedReadonly { file_path, merkle_tree_dump_path, signature, file_size } => {
            assert_eq!(file_path, "/f");
            assert_eq!(merkle_tree_dump_path, "/t");
            assert_eq!(signature, vec![1, 2]);
            assert_eq!(file_size, 9);
        }
        other => panic!("unexpected {:?}", other),
    }
    assert!(matches!(
        new_config_remote_new_verified_file(7),
        FileConfig::RemoteVerifiedNew { remote_id: 7 }
    ));
}

#[test]
fn empty_options_give_an_empty_pool() {
    let pool = prepare_file_pool(&args_with(&[], &[], &[], &[], &[]), &nothing_fetched()).unwrap();
    assert!(pool.is_empty());
}

#[test]
fn pool_serves_every_configured_file() {
    let args = args_with(
        &["5:10:/cert"],
        &["6:11"],
        &["12:34"],
        &["1:/f:/t:/s:/c"],
        &["2:/plain"],
    );
    let fetched = FetchedFiles {
        remote_ro: vec![RemoteVerifiedFetch { file_size: 100, signature: vec![9, 9] }],
        remote_ro_unverified: vec![200],
        local_ro: vec![LocalVerifiedFetch { file_size: 300, signature: vec![7] }],
        local_ro_unverified: vec![400],
    };
    let pool = prepare_file_pool(&args, &fetched).unwrap();
    assert_eq!(pool.keys().copied().collect::<Vec<_>>(), vec![1, 2, 5, 6, 12]);
    match &pool[&5] {
        FileConfig::RemoteVerifiedReadonly { remote_id, signature, file_size } => {
            assert_eq!((*remote_id, signature.clone(), *file_size), (10, vec![9, 9], 100));
        }
        other => panic!("unexpected {:?}", other),
    }
    assert!(matches!(
        &pool[&6],
        FileConfig::RemoteUnverifiedReadonly { remote_id: 11, file_size: 200 }
    ));
    assert!(matches!(&pool[&12], FileConfig::RemoteVerifiedNew { remote_id: 34 }));
    match &pool[&1] {
        FileConfig::LocalVerifiedReadonly { file_path, merkle_tree_dump_path, signature, file_size } => {
            assert_eq!(file_path, "/f");
            assert_eq!(merkle_tree_dump_path, "/t");
            assert_eq!(signature, &vec![7]);
            assert_eq!(*file_size, 300);
        }
        other => panic!("unexpected {:?}", other),
    }
    match &pool[&2] {
        FileConfig::LocalUnverifiedReadonly { file_path, file_size } => {
            assert_eq!((file_path.as_str(), *file_size), ("/plain", 400));
        }
        other => panic!("unexpected {:?}", other),
    }
}

#[test]
fn later_option_for_an_inode_wins() {
    let args = args_with(&["5:10:/cert"], &[], &["5:99"], &[], &["5:/last"]);
    let fetched = FetchedFiles {
        remote_ro: vec![RemoteVerifiedFetch { file_size: 1, signature: vec![] }],
        remote_ro_unverified: vec![],
        local_ro: vec![],
        local_ro_unverified: vec![8],
    };
    let pool = prepare_file_pool(&args, &fetched).unwrap();
    assert_eq!(pool.len(), 1);
    match &pool[&5] {
        FileConfig::LocalUnverifiedReadonly { file_path, file_size } => {
            assert_eq!((file_path.as_str(), *file_size), ("/last", 8));
        }
        other => panic!("unexpected {:?}", other),
    }

    let args = args_with(&[], &["3:1"], &["3:2"], &[], &[]);
    let fetched = FetchedFiles { remote_ro_unverified: vec![10], ..nothing_fetched() };
    let pool = prepare_file_pool(&args, &fetched).unwrap();
    assert!(matches!(&pool[&3], FileConfig::RemoteVerifiedNew { remote_id: 2 }));
}

#[test]
fn first_negative_remote_size_is_refused() {
    let args = args_with(&["1:1:/c", "2:2:/c"], &["3:3"], &[], &[], &[]);
    let fetched = FetchedFiles {
        remote_ro: vec![
            RemoteVerifiedFetch { file_size: 5, signature: vec![] },
            RemoteVerifiedFetch { file_size: -2, signature: vec![] },
        ],
        remote_ro_unverified: vec![-3],
        ..nothing_fetched()
    };
    assert_eq!(prepare_file_pool(&args, &fetched).unwrap_err(), PoolError::InvalidFileSize(-2));

    let fetched = FetchedFiles {
        remote_ro: vec![
            RemoteVerifiedFetch { file_size: 5, signature: vec![] },
            RemoteVerifiedFetch { file_size: 6, signature: vec![] },
        ],
        remote_ro_unverified: vec![-3],
        ..nothing_fetched()
    };
    assert_eq!(prepare_file_pool(&args, &fetched).unwrap_err(), PoolError::InvalidFileSize(-3));
}
