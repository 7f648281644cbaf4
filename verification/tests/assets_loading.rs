use shining_piano::assets::{
    AssetObservation, AssetsTick, LoadState, ProgramAssets, ProgramSlot, DEFAULT_PROGRAM,
    PROGRAM_COUNT, init_program_assets, program_asset_name,
};

fn observe_all(state: LoadState, deps_ready: bool, n: usize) -> Vec<AssetObservation> {
    let mut v = Vec::new();
    for _ in 0..n {
        v.push(AssetObservation {
            load_state: state,
            deps_ready,
        });
    }
    v
}

#[test]
fn program_asset_names() {
    assert_eq!(program_asset_name(1), "f1.json");
    assert_eq!(program_asset_name(2), "f2.json");
    assert_eq!(program_asset_name(9), "f9.json");
    assert_eq!(program_asset_name(10), "f10.json");
    assert_eq!(program_asset_name(12), "f12.json");
}

#[test]
fn fresh_slot_table() {
    let assets = init_program_assets();
    assert_eq!(assets.programs.len(), PROGRAM_COUNT);
    assert!(!assets.completed);
    for (i, slot) in assets.programs.iter().enumerate() {
        assert_eq!(slot.load_state, LoadState::NotLoaded);
        assert_eq!(slot.program_no, i + 1);
    }
}

#[test]
fn everything_loaded_in_one_pass() {
    let mut assets = init_program_assets();
    let obs = observe_all(LoadState::Loaded, true, PROGRAM_COUNT);
    let tick: AssetsTick = assets.check_graph_assets_ready(&obs);
    let expected: Vec<usize> = (1..=PROGRAM_COUNT).collect();
    assert_eq!(tick.store_programs, expected);
    assert_eq!(tick.start_program, Some(DEFAULT_PROGRAM));
    assert!(assets.completed);
    for slot in &assets.programs {
        assert_eq!(slot.load_state, LoadState::Loaded);
    }
}

#[test]
fn a_pending_dependency_stops_the_pass() {
    let mut assets = ProgramAssets {
        programs: vec![
            ProgramSlot {
                load_state: LoadState::NotLoaded,
                program_no: 1,
            },
            ProgramSlot {
                load_state: LoadState::NotLoaded,
                program_no: 2,
            },
        ],
        completed: false,
    };
    let obs = vec![
        AssetObservation {
            load_state: LoadState::Loaded,
            deps_ready: true,
        },
        AssetObservation {
            load_state: LoadState::Loading,
            deps_ready: false,
        },
    ];
    let tick = assets.check_graph_assets_ready(&obs);
    assert_eq!(tick.store_programs, vec![1]);
    assert_eq!(tick.start_program, None);
    assert!(!assets.completed);
    assert_eq!(assets.programs[0].load_state, LoadState::Loaded);
    assert_eq!(assets.programs[1].load_state, LoadState::NotLoaded);

    // next pass: the remaining asset has arrived
    let obs = vec![
        AssetObservation {
            load_state: LoadState::Loaded,
            deps_ready: true,
        },
        AssetObservation {
            load_state: LoadState::Loaded,
            deps_ready: true,
        },
    ];
    let tick = assets.check_graph_assets_ready(&obs);
    assert_eq!(tick.store_programs, vec![2]);
    assert_eq!(tick.start_program, Some(DEFAULT_PROGRAM));
    assert!(assets.completed);
}

#[test]
fn a_failed_asset_is_recorded_and_skipped() {
    let mut assets = ProgramAssets {
        programs: vec![
            ProgramSlot {
                load_state: LoadState::NotLoaded,
                program_no: 1,
            },
            ProgramSlot {
                load_state: LoadState::NotLoaded,
                program_no: 2,
            },
        ],
        completed: false,
    };
    let obs = vec![
        AssetObservation {
            load_state: LoadState::Failed,
            deps_ready: false,
        },
        AssetObservation {
            load_state: LoadState::Loaded,
            deps_ready: true,
        },
    ];
    let tick = assets.check_graph_assets_ready(&obs);
    assert_eq!(tick.store_programs, vec![2]);
    assert_eq!(tick.start_program, Some(DEFAULT_PROGRAM));
    assert!(assets.completed);
    assert_eq!(assets.programs[0].load_state, LoadState::Failed);
    assert_eq!(assets.programs[1].load_state, LoadState::Loaded);
}

#[test]
fn a_completed_table_ignores_further_passes() {
    let mut assets = init_program_assets();
    let obs = observe_all(LoadState::Loaded, true, PROGRAM_COUNT);
    assets.check_graph_assets_ready(&obs);
    assert!(assets.completed);

    let tick = assets.check_graph_assets_ready(&obs);
    assert!(tick.store_programs.is_empty());
    assert_eq!(tick.start_program, None);
}
