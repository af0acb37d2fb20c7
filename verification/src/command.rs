//! External-tool invocations.
//!
//! The pipeline never runs a tool itself: it hands the driver a fully built
//! [`ToolCommand`] and is told the outcome.  The two builders below pin down
//! the exact program, argument list and environment of every invocation, so
//! that what the pipeline asks for is part of its verified contract.

use vstd::prelude::*;
use vstd::string::StringExecFns;

verus! {

/// Configuration for one pipeline run: where the inputs, the staging
/// directory and the canonical output directory live, the spatial reference
/// identifier handed to the conversion tool, and the database connection
/// parameters handed to the import tool.
pub struct Config {
    pub input_dir: String,
    pub staging_dir: String,
    pub canonical_dir: String,
    pub srid: String,
    pub db_host: String,
    pub db_user: String,
    pub db_name: String,
    pub db_password: String,
}

/// One external-tool invocation: the program, its arguments, and extra
/// environment variables to set for it.
pub struct ToolCommand {
    pub program: String,
    pub args: Vec<String>,
    pub env: Vec<(String, String)>,
}

/// The argument list of one conversion-tool invocation: drop-and-recreate
/// mode, spatial-index creation, the spatial reference identifier, the source
/// path, and the target table's logical name.
pub open spec fn conversion_argv(srid: Seq<char>, path: Seq<char>, name: Seq<char>) -> Seq<
    Seq<char>,
> {
    seq!["-D"@, "-I"@, "-s"@, srid, path, name]
}

/// The argument list of one import-tool invocation: host, user, database,
/// and the script file to apply.
pub open spec fn import_argv(host: Seq<char>, user: Seq<char>, db: Seq<char>, script: Seq<char>) -> Seq<
    Seq<char>,
> {
    seq!["-h"@, host, "-U"@, user, "-d"@, db, "-f"@, script]
}

/// The import invocations that one pass over a listing of script files
/// produces: one per file, in listing order, each determined by the
/// connection parameters and the file alone.
pub open spec fn import_plan(
    host: Seq<char>,
    user: Seq<char>,
    db: Seq<char>,
    scripts: Seq<Seq<char>>,
) -> Seq<Seq<Seq<char>>> {
    scripts.map_values(|s: Seq<char>| import_argv(host, user, db, s))
}

/// Builds the conversion-tool invocation for one source file.
pub fn conversion_command(cfg: &Config, path: &String, name: &String) -> (c: ToolCommand)
    ensures
        c.program@ == "shp2pgsql"@,
        c.args.deep_view() == conversion_argv(cfg.srid@, path@, name@),
        c.env@.len() == 0,
{
    let mut args: Vec<String> = Vec::new();
    args.push(String::from_str("-D"));
    args.push(String::from_str("-I"));
    args.push(String::from_str("-s"));
    args.push(cfg.srid.clone());
    args.push(path.clone());
    args.push(name.clone());
    proof {
        assert(args.deep_view() =~= conversion_argv(cfg.srid@, path@, name@));
    }
    ToolCommand { program: String::from_str("shp2pgsql"), args, env: Vec::new() }
}

/// Builds the import-tool invocation for one script file.
pub fn import_command(cfg: &Config, script: &String) -> (c: ToolCommand)
    ensures
        c.program@ == "psql"@,
        c.args.deep_view() == import_argv(cfg.db_host@, cfg.db_user@, cfg.db_name@, script@),
        c.env.deep_view() == seq![("PGPASSWORD"@, cfg.db_password@)],
{
    let mut args: Vec<String> = Vec::new();
    args.push(String::from_str("-h"));
    args.push(cfg.db_host.clone());
    args.push(String::from_str("-U"));
    args.push(cfg.db_user.clone());
    args.push(String::from_str("-d"));
    args.push(cfg.db_name.clone());
    args.push(String::from_str("-f"));
    args.push(script.clone());
    let mut env: Vec<(String, String)> = Vec::new();
    env.push((String::from_str("PGPASSWORD"), cfg.db_password.clone()));
    proof {
        assert(args.deep_view() =~= import_argv(cfg.db_host@, cfg.db_user@, cfg.db_name@, script@));
        assert(env.deep_view() =~= seq![("PGPASSWORD"@, cfg.db_password@)]);
    }
    ToolCommand { program: String::from_str("psql"), args, env }
}

} // verus!
