//! The command line of the headers cache, a companion that grabs the headers of the relay chain,
//! keeps them in a database and serves them.
//!
//! The command line decides what is done and in which order: [`Args::plan`] turns it into steps,
//! each of which is work for the outside. A step that fails ends the run.

use vstd::prelude::*;

verus! {

pub type BlockNumber = u32;

/// The parsed command line.
#[derive(Debug)]
pub struct Args {
    pub action: Action,
}

/// What to import.
#[derive(Debug)]
pub enum Import {
    /// Import headers from the given file to the database.
    Headers { input: String },
    /// Import the genesis from the given file to the database.
    Genesis { input: String },
}

/// What to grab.
#[derive(Debug)]
pub enum Grab {
    /// Grab headers from the chain and dump them to a file.
    Headers {
        /// The block number to start at.
        from_block: BlockNumber,
        /// Number of headers to grab.
        count: BlockNumber,
        /// Minimum number of blocks between justifications.
        justification_interval: BlockNumber,
        /// The file to write the headers to.
        output: String,
    },
    /// Grab the genesis from the chain and dump it to a file.
    Genesis {
        /// The block number to be treated as genesis.
        block: BlockNumber,
        /// The file to write the result to.
        output: String,
    },
}

/// What the program is to do.
#[derive(Debug)]
#[allow(inconsistent_fields)]
pub enum Action {
    /// Grab genesis or headers from the chain and dump it to a file.
    Grab {
        /// The RPC endpoint of the relay chain.
        node_uri: String,
        what: Grab,
    },
    /// Import genesis or headers from a file into the cache database.
    Import {
        /// The database file to use.
        db: String,
        what: Import,
    },
    /// Run the cache server.
    Serve {
        /// The database file to use.
        db: String,
    },
}

/// A piece of work for the outside.
#[derive(Debug)]
pub enum Step {
    /// Connect to the node.
    Connect { node_uri: String },
    /// Create the output file.
    CreateOutput { path: String },
    /// Grab headers from the node into the output file, and tell how many.
    GrabHeaders {
        from_block: BlockNumber,
        count: BlockNumber,
        justification_interval: BlockNumber,
    },
    /// Fetch the genesis from the node and write it to the output file.
    GrabGenesis { block: BlockNumber },
    /// Open the cache database.
    OpenDb { path: String },
    /// Import the headers of the file into the database, and tell how many.
    ImportHeaders { path: String },
    /// Read and decode the genesis of the file, put it into the database, and tell its number.
    ImportGenesis { path: String },
    /// Serve the database.
    Serve { db: String },
}

impl Args {
    /// The steps that the command line asks for.
    pub open spec fn steps(self) -> Seq<Step> {
        match self.action {
            Action::Grab { node_uri, what } => match what {
                Grab::Headers { from_block, count, justification_interval, output } => seq![
                    Step::Connect { node_uri },
                    Step::CreateOutput { path: output },
                    Step::GrabHeaders { from_block, count, justification_interval },
                ],
                Grab::Genesis { block, output } => seq![
                    Step::Connect { node_uri },
                    Step::CreateOutput { path: output },
                    Step::GrabGenesis { block },
                ],
            },
            Action::Import { db, what } => match what {
                Import::Headers { input } => seq![
                    Step::OpenDb { path: db },
                    Step::ImportHeaders { path: input },
                ],
                Import::Genesis { input } => seq![
                    Step::OpenDb { path: db },
                    Step::ImportGenesis { path: input },
                ],
            },
            Action::Serve { db } => seq![Step::Serve { db }],
        }
    }

    /// Turns the command line into the steps that it asks for.
    pub fn plan(self) -> (r: Vec<Step>)
        ensures
            r@ == self.steps(),
    {
        let ghost steps = self.steps();
        let mut plan: Vec<Step> = Vec::new();
        match self.action {
            Action::Grab { node_uri, what } => {
                plan.push(Step::Connect { node_uri });
                match what {
                    Grab::Headers { from_block, count, justification_interval, output } => {
                        plan.push(Step::CreateOutput { path: output });
                        plan.push(Step::GrabHeaders { from_block, count, justification_interval });
                    },
                    Grab::Genesis { block, output } => {
                        plan.push(Step::CreateOutput { path: output });
                        plan.push(Step::GrabGenesis { block });
                    },
                }
            },
            Action::Import { db, what } => {
                plan.push(Step::OpenDb { path: db });
                match what {
                    Import::Headers { input } => {
                        plan.push(Step::ImportHeaders { path: input });
                    },
                    Import::Genesis { input } => {
                        plan.push(Step::ImportGenesis { path: input });
                    },
                }
            },
            Action::Serve { db } => {
                plan.push(Step::Serve { db });
            },
        }
        assert(plan@ =~= steps);
        plan
    }
}

/// Nothing is grabbed without a node and a file, and nothing is imported without a database: the
/// steps that connect, create and open stand before those that need it.
pub proof fn law_steps_are_prepared(args: Args, at: int)
    requires
        0 <= at < args.steps().len(),
    ensures
        match args.steps()[at] {
            Step::CreateOutput { path } => at == 1 && args.steps()[0] is Connect,
            Step::GrabHeaders { from_block, count, justification_interval } => at == 2
                && args.steps()[0] is Connect && args.steps()[1] is CreateOutput,
            Step::GrabGenesis { block } => at == 2 && args.steps()[0] is Connect
                && args.steps()[1] is CreateOutput,
            Step::ImportHeaders { path } => at == 1 && args.steps()[0] is OpenDb,
            Step::ImportGenesis { path } => at == 1 && args.steps()[0] is OpenDb,
            _ => at == 0,
        },
{
}

/// To grab headers is to connect to the node that was named, to create the file that was named, and
/// then to grab from the block, in the number and at the interval that were given.
pub proof fn law_headers_are_grabbed_as_asked(
    args: Args,
    node_uri: String,
    from_block: BlockNumber,
    count: BlockNumber,
    justification_interval: BlockNumber,
    output: String,
)
    requires
        args.action == (Action::Grab {
            node_uri,
            what: Grab::Headers { from_block, count, justification_interval, output },
        }),
    ensures
        args.steps().len() == 3,
        args.steps()[0] == (Step::Connect { node_uri }),
        args.steps()[1] == (Step::CreateOutput { path: output }),
        args.steps()[2] is GrabHeaders,
        args.steps()[2]->from_block == from_block,
        args.steps()[2]->count == count,
        args.steps()[2]->justification_interval == justification_interval,
{
}

/// To grab the genesis is to connect to the node that was named, to create the file that was named,
/// and then to grab the block that was given.
pub proof fn law_genesis_is_grabbed_as_asked(
    args: Args,
    node_uri: String,
    block: BlockNumber,
    output: String,
)
    requires
        args.action == (Action::Grab { node_uri, what: Grab::Genesis { block, output } }),
    ensures
        args.steps().len() == 3,
        args.steps()[0] == (Step::Connect { node_uri }),
        args.steps()[1] == (Step::CreateOutput { path: output }),
        args.steps()[2] == (Step::GrabGenesis { block }),
{
}

/// To import is to open the database that was named and then to import, of the sort that was asked
/// for, from the file that was named.
pub proof fn law_imports_are_done_as_asked(args: Args, db: String, input: String)
    ensures
        args.action == (Action::Import { db, what: Import::Headers { input } }) ==> {
            &&& args.steps().len() == 2
            &&& args.steps()[0] == (Step::OpenDb { path: db })
            &&& args.steps()[1] == (Step::ImportHeaders { path: input })
        },
        args.action == (Action::Import { db, what: Import::Genesis { input } }) ==> {
            &&& args.steps().len() == 2
            &&& args.steps()[0] == (Step::OpenDb { path: db })
            &&& args.steps()[1] == (Step::ImportGenesis { path: input })
        },
{
}

/// To serve is to serve the database that was named, and nothing else.
pub proof fn law_database_is_served_as_asked(args: Args, db: String)
    requires
        args.action == (Action::Serve { db }),
    ensures
        args.steps().len() == 1,
        args.steps()[0] == (Step::Serve { db }),
{
}

} // verus!
