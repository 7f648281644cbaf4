//! Bookkeeping for instrument programs: the fixed manifest of program
//! assets loaded at startup, and the polling pass that watches them load,
//! stores each finished program into the audio graph, and starts the
//! default program once every asset has settled.
use vstd::prelude::*;
use vstd::pervasive::VecAdditionalExecFns;

verus! {

/// How many instrument programs the piano ships with.
pub const PROGRAM_COUNT: usize = 12;

/// The program selected once loading completes.
pub const DEFAULT_PROGRAM: usize = 1;

/// Where an asset stands in the host's loading pipeline, as far as this
/// crate needs to distinguish.
#[derive(Clone, Copy, Debug, PartialEq, Eq, Structural)]
pub enum LoadState {
    NotLoaded,
    Loading,
    Loaded,
    Failed,
}

/// One instrument program: the state its asset was last seen in, and the
/// program number it is stored under. The host owns the asset handle
/// itself; `program_asset_name` says which file the handle should load.
#[derive(Clone, Copy, Debug, PartialEq, Eq, Structural)]
pub struct ProgramSlot {
    pub load_state: LoadState,
    pub program_no: usize,
}

/// The file each program is read from: programs 1 through 12 live in
/// `f1.json` through `f12.json`.
pub open spec fn spec_program_asset_name(program_no: int) -> Seq<char> {
    if program_no == 1 {
        "f1.json"@
    } else if program_no == 2 {
        "f2.json"@
    } else if program_no == 3 {
        "f3.json"@
    } else if program_no == 4 {
        "f4.json"@
    } else if program_no == 5 {
        "f5.json"@
    } else if program_no == 6 {
        "f6.json"@
    } else if program_no == 7 {
        "f7.json"@
    } else if program_no == 8 {
        "f8.json"@
    } else if program_no == 9 {
        "f9.json"@
    } else if program_no == 10 {
        "f10.json"@
    } else if program_no == 11 {
        "f11.json"@
    } else {
        "f12.json"@
    }
}

/// The file the numbered program is read from.
pub fn program_asset_name(program_no: usize) -> (r: String)
    requires
        1 <= program_no <= PROGRAM_COUNT,
    ensures
        r@ == spec_program_asset_name(program_no as int),
{
    match program_no {
        1 => String::from_str("f1.json"),
        2 => String::from_str("f2.json"),
        3 => String::from_str("f3.json"),
        4 => String::from_str("f4.json"),
        5 => String::from_str("f5.json"),
        6 => String::from_str("f6.json"),
        7 => String::from_str("f7.json"),
        8 => String::from_str("f8.json"),
        9 => String::from_str("f9.json"),
        10 => String::from_str("f10.json"),
        11 => String::from_str("f11.json"),
        _ => String::from_str("f12.json"),
    }
}

/// The program slots and the completion flag the polling pass works over.
/// `completed` latches once every asset has settled and the default program
/// has been requested.
#[derive(Debug)]
pub struct ProgramAssets {
    pub programs: Vec<ProgramSlot>,
    pub completed: bool,
}

/// The fresh slot table: one slot per shipped program, none of them loaded
/// yet, numbered from one.
pub fn init_program_assets() -> (r: ProgramAssets)
    ensures
        r.programs@.len() == PROGRAM_COUNT,
        forall|i: int|
            0 <= i < PROGRAM_COUNT ==> r.programs@[i] == (ProgramSlot {
                load_state: LoadState::NotLoaded,
                program_no: (i + 1) as usize,
            }),
        !r.completed,
{
    let mut programs: Vec<ProgramSlot> = Vec::new();
    for index in 0..PROGRAM_COUNT
        invariant
            programs@.len() == index,
            forall|i: int|
                0 <= i < index ==> programs@[i] == (ProgramSlot {
                    load_state: LoadState::NotLoaded,
                    program_no: (i + 1) as usize,
                }),
    {
        programs.push(ProgramSlot { load_state: LoadState::NotLoaded, program_no: index + 1 });
    }
    ProgramAssets { programs, completed: false }
}

/// What the host reports about one program's asset during a polling pass:
/// the loading pipeline's state, and whether the asset and all its
/// dependencies are fully available.
#[derive(Clone, Copy, Debug, PartialEq, Eq, Structural)]
pub struct AssetObservation {
    pub load_state: LoadState,
    pub deps_ready: bool,
}

/// What one polling pass over slots `i..` does, given the observations:
/// the slot table afterwards, the programs to store into the audio graph in
/// order, and whether the pass reached the end of the table.
///
/// A settled slot (loaded or failed) is skipped. A slot observed failed or
/// not loaded records the observation and stays pending. A slot whose asset
/// is underway but whose dependencies are not all available stops the whole
/// pass, leaving later slots untouched. Otherwise the slot becomes loaded
/// and its program is stored.
pub open spec fn spec_poll(slots: Seq<ProgramSlot>, obs: Seq<AssetObservation>, i: nat) -> (
    Seq<ProgramSlot>,
    Seq<usize>,
    bool,
)
    decreases slots.len() - i,
{
    if i >= slots.len() {
        (slots, Seq::<usize>::empty(), true)
    } else {
        let slot = slots[i as int];
        if slot.load_state == LoadState::Loaded || slot.load_state == LoadState::Failed {
            spec_poll(slots, obs, i + 1)
        } else {
            let o = obs[i as int];
            if o.load_state == LoadState::Failed || o.load_state == LoadState::NotLoaded {
                spec_poll(
                    slots.update(
                        i as int,
                        ProgramSlot { load_state: o.load_state, program_no: slot.program_no },
                    ),
                    obs,
                    i + 1,
                )
            } else if !o.deps_ready {
                (slots, Seq::<usize>::empty(), false)
            } else {
                let rest = spec_poll(
                    slots.update(
                        i as int,
                        ProgramSlot { load_state: LoadState::Loaded, program_no: slot.program_no },
                    ),
                    obs,
                    i + 1,
                );
                (rest.0, seq![slot.program_no] + rest.1, rest.2)
            }
        }
    }
}

/// What the caller must carry out after one polling pass: store these
/// programs into the audio graph, in order, and, when loading has just
/// completed, start the given program.
#[derive(Debug)]
pub struct AssetsTick {
    pub store_programs: Vec<usize>,
    pub start_program: Option<usize>,
}

impl ProgramAssets {
    /// One polling pass over the slot table, as `spec_poll` describes it
    /// from the first slot. Once the pass reaches the end of the table,
    /// `completed` latches and the default program is requested; after
    /// that, further passes do nothing.
    pub fn check_graph_assets_ready(&mut self, observations: &Vec<AssetObservation>) -> (r:
        AssetsTick)
        requires
            observations@.len() == old(self).programs@.len(),
        ensures
            old(self).completed ==> {
                &&& final(self).programs@ == old(self).programs@
                &&& final(self).completed
                &&& r.store_programs@ == Seq::<usize>::empty()
                &&& r.start_program is None
            },
            !old(self).completed ==> {
                let poll = spec_poll(old(self).programs@, observations@, 0);
                &&& final(self).programs@ == poll.0
                &&& final(self).completed == poll.2
                &&& r.store_programs@ == poll.1
                &&& r.start_program == (if poll.2 {
                    Some(DEFAULT_PROGRAM)
                } else {
                    None::<usize>
                })
            },
    {
        let mut store_programs: Vec<usize> = Vec::new();
        if self.completed {
            return AssetsTick { store_programs, start_program: None };
        }
        let ghost orig = self.programs@;
        let ghost obs = observations@;
        let mut i: usize = 0;
        while i < self.programs.len()
            invariant
                !old(self).completed,
                orig == old(self).programs@,
                i <= self.programs@.len(),
                self.programs@.len() == orig.len(),
                observations@ == obs,
                obs.len() == orig.len(),
                spec_poll(orig, obs, 0).0 == spec_poll(self.programs@, obs, i as nat).0,
                spec_poll(orig, obs, 0).1 == store_programs@ + spec_poll(
                    self.programs@,
                    obs,
                    i as nat,
                ).1,
                spec_poll(orig, obs, 0).2 == spec_poll(self.programs@, obs, i as nat).2,
                !self.completed,
            decreases self.programs@.len() - i,
        {
            let slot = self.programs[i];
            let settled = match slot.load_state {
                LoadState::Loaded | LoadState::Failed => true,
                _ => false,
            };
            if !settled {
                let o = observations[i];
                match o.load_state {
                    LoadState::Failed | LoadState::NotLoaded => {
                        self.programs.set(
                            i,
                            ProgramSlot {
                                load_state: o.load_state,
                                program_no: slot.program_no,
                            },
                        );
                    },
                    LoadState::Loaded | LoadState::Loading => {
                        if !o.deps_ready {
                            proof {
                                assert(spec_poll(self.programs@, obs, i as nat).1
                                    =~= Seq::<usize>::empty());
                                assert(spec_poll(orig, obs, 0).1 =~= store_programs@);
                            }
                            return AssetsTick { store_programs, start_program: None };
                        }
                        self.programs.set(
                            i,
                            ProgramSlot {
                                load_state: LoadState::Loaded,
                                program_no: slot.program_no,
                            },
                        );
                        store_programs.push(slot.program_no);
                        proof {
                            assert(spec_poll(orig, obs, 0).1 =~= store_programs@ + spec_poll(
                                self.programs@,
                                obs,
                                (i + 1) as nat,
                            ).1);
                        }
                    },
                }
            }
            i = i + 1;
        }
        self.completed = true;
        proof {
            assert(spec_poll(orig, obs, 0).1 =~= store_programs@);
        }
        AssetsTick { store_programs, start_program: Some(DEFAULT_PROGRAM) }
    }
}

} // verus!
