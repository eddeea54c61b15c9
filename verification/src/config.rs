//! Options of a run and the branches of the pipeline that they enable.

use vstd::prelude::*;

verus! {

/// The options of one run.
#[derive(Clone, Debug)]
pub struct Config {
    pub timely_args: Vec<String>,
    pub log_path: String,
    pub threshold: u64,
    pub window_size_ns: u32,
    pub epochs: u64,
    pub message_delay: Option<u64>,
    pub verbose: u64,
    pub dump_pag: bool,
    pub write_bc_dot: bool,
    pub write_pag_dot: bool,
    pub write_pag_msgpack: bool,
    pub insert_waiting_edges: bool,
    pub disable_summary: bool,
    pub disable_bc: bool,
    pub waiting_message: u64,
}

/// A branch of the pipeline that a watermark tracker follows.
#[derive(Clone, Copy, Debug, PartialEq, Eq, Structural)]
pub enum Branch {
    Pag,
    Centrality,
    SinglePath,
    Summary,
    SinglePathSummary,
}

/// The stages and sinks that a run wires, as its options decide.
#[derive(Clone, Copy, Debug, PartialEq, Eq, Structural)]
pub struct DataflowPlan {
    /// Every record of the graph is dumped to the console.
    pub dump_pag: bool,
    /// The graph of each window is written as a drawing.
    pub write_pag_dot: bool,
    /// The graph of each window is written in binary form.
    pub write_pag_msgpack: bool,
    /// The centrality stage is wired, with the forward, backward and graph
    /// streams that it reads.
    pub centrality: bool,
    /// The per-window counts of the backward and graph streams are reported.
    pub branch_counts: bool,
    /// Every record of every wired stream is echoed.
    pub echo: bool,
    /// The scored graph of each window is written as a drawing.
    pub write_bc_dot: bool,
    /// The sampler, the path extraction, the path count and both summaries
    /// are wired.
    pub summaries: bool,
}

/// The plan that the options decide: the stages behind the graph are wired
/// unless centrality is switched off, those behind centrality unless
/// summaries are switched off as well, and a sink or a report of a stage
/// only where the stage is wired.
pub open spec fn plan_spec(config: Config) -> DataflowPlan {
    DataflowPlan {
        dump_pag: config.dump_pag,
        write_pag_dot: config.write_pag_dot,
        write_pag_msgpack: config.write_pag_msgpack,
        centrality: !config.disable_bc,
        branch_counts: !config.disable_bc && config.verbose > 0,
        echo: config.verbose > 1,
        write_bc_dot: !config.disable_bc && config.write_bc_dot,
        summaries: !config.disable_bc && !config.disable_summary,
    }
}

/// The branches that a run with the given switches builds, in the order in
/// which their trackers are handed out.
pub open spec fn enabled_branches_spec(disable_bc: bool, disable_summary: bool) -> Seq<Branch> {
    if disable_bc {
        seq![Branch::Pag]
    } else if disable_summary {
        seq![Branch::Pag, Branch::Centrality]
    } else {
        seq![
            Branch::Pag,
            Branch::Centrality,
            Branch::SinglePath,
            Branch::Summary,
            Branch::SinglePathSummary,
        ]
    }
}

impl Branch {
    /// The name under which the branch appears in diagnostic lines.
    pub open spec fn name_spec(&self) -> Seq<char> {
        match *self {
            Branch::Pag => "pag"@,
            Branch::Centrality => "bc"@,
            Branch::SinglePath => "sp"@,
            Branch::Summary => "summary"@,
            Branch::SinglePathSummary => "sp_summary"@,
        }
    }

    /// The name under which the branch appears in diagnostic lines.
    pub fn name(&self) -> (name: &'static str)
        ensures
            name@ == self.name_spec(),
    {
        match self {
            Branch::Pag => "pag",
            Branch::Centrality => "bc",
            Branch::SinglePath => "sp",
            Branch::Summary => "summary",
            Branch::SinglePathSummary => "sp_summary",
        }
    }
}

impl Config {
    /// The branches that this configuration enables: the graph's branch
    /// alone without centrality, two branches without summaries, all five
    /// otherwise.
    pub fn enabled_branches(&self) -> (branches: Vec<Branch>)
        ensures
            branches@ == enabled_branches_spec(self.disable_bc, self.disable_summary),
    {
        let mut branches: Vec<Branch> = Vec::new();
        branches.push(Branch::Pag);
        if !self.disable_bc {
            branches.push(Branch::Centrality);
            if !self.disable_summary {
                branches.push(Branch::SinglePath);
                branches.push(Branch::Summary);
                branches.push(Branch::SinglePathSummary);
            }
        }
        assert(branches@ =~= enabled_branches_spec(self.disable_bc, self.disable_summary));
        branches
    }

    /// Decides which stages and sinks the run wires.
    pub fn plan(&self) -> (plan: DataflowPlan)
        ensures
            plan == plan_spec(*self),
            plan.summaries ==> plan.centrality,
    {
        let centrality = !self.disable_bc;
        DataflowPlan {
            dump_pag: self.dump_pag,
            write_pag_dot: self.write_pag_dot,
            write_pag_msgpack: self.write_pag_msgpack,
            centrality,
            branch_counts: centrality && self.verbose > 0,
            echo: self.verbose > 1,
            write_bc_dot: centrality && self.write_bc_dot,
            summaries: centrality && !self.disable_summary,
        }
    }
}

} // verus!
