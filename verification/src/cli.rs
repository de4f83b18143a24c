//! The command-line surface: the parsed invocation (`Cli` and the
//! argument structs), the one-line descriptions of the commands, and the
//! help text that `clap` renders for the command tree.

use vstd::prelude::*;

use crate::quality::{Quality, VideoQuality};
use crate::text::views;

verus! {

/// Description of the program.
pub const ABOUT_PEXFETCH: &'static str = "Search, authenticate, and download Pexels images from the terminal.";

/// Description of `auth`.
pub const ABOUT_AUTH: &'static str = "Authenticate, inspect config state, or remove saved credentials";

/// Description of `status`.
pub const ABOUT_STATUS: &'static str = "Check configured auth and live API connectivity";

/// Description of `search`.
pub const ABOUT_SEARCH: &'static str = "Search Pexels photos and return JSON results";

/// Description of `download`.
pub const ABOUT_DOWNLOAD: &'static str = "Download a specific Pexels photo by id";

/// Description of `download-first`.
pub const ABOUT_DOWNLOAD_FIRST: &'static str = "Search and download the first matching Pexels photo";

/// Description of `videos`.
pub const ABOUT_VIDEOS: &'static str = "Search and download Pexels videos";

/// Description of `auth status`.
pub const ABOUT_AUTH_STATUS: &'static str = "Show where credentials come from without calling the API";

/// Description of `auth login`.
pub const ABOUT_AUTH_LOGIN: &'static str = "Save a Pexels API key from --api-key or interactive stdin";

/// Description of `auth logout`.
pub const ABOUT_AUTH_LOGOUT: &'static str = "Remove the stored Pexels API key from the local config file";

/// Description of `videos search`.
pub const ABOUT_VIDEOS_SEARCH: &'static str = "Search Pexels videos and return JSON results";

/// Description of `videos download`.
pub const ABOUT_VIDEOS_DOWNLOAD: &'static str = "Download a specific Pexels video by id";

/// Description of `videos download-first`.
pub const ABOUT_VIDEOS_DOWNLOAD_FIRST: &'static str = "Search and download the first matching Pexels video";

/// A parsed invocation.
pub struct Cli {
    pub command: Command,
}

/// The top-level commands.
#[allow(inconsistent_fields)]
pub enum Command {
    Auth { command: AuthCommand },
    Status,
    Search(SearchArgs),
    Download(DownloadArgs),
    DownloadFirst(DownloadFirstArgs),
    Videos { command: VideoCommand },
}

/// The `auth` subcommands.
pub enum AuthCommand {
    Status,
    Login { api_key: Option<String> },
    Logout,
}

/// The `videos` subcommands.
pub enum VideoCommand {
    Search(VideoSearchArgs),
    Download(VideoDownloadArgs),
    DownloadFirst(VideoDownloadFirstArgs),
}

/// Arguments of `search` (and the search part of `download-first`).
pub struct SearchArgs {
    pub query: String,
    pub page: u64,
    pub per_page: u64,
    pub orientation: Option<String>,
    pub size: Option<String>,
    pub color: Option<String>,
    pub locale: Option<String>,
}

/// Arguments of `download`.
pub struct DownloadArgs {
    pub id: u64,
    pub quality: Quality,
    pub output_dir: String,
}

/// Arguments of `download-first`.
pub struct DownloadFirstArgs {
    pub search: SearchArgs,
    pub quality: Quality,
    pub output_dir: String,
}

/// Arguments of `videos search`.
pub struct VideoSearchArgs {
    pub query: String,
    pub page: u64,
    pub per_page: u64,
    pub orientation: Option<String>,
    pub size: Option<String>,
    pub locale: Option<String>,
}

/// Arguments of `videos download`. A file id, when given, overrides the
/// quality.
pub struct VideoDownloadArgs {
    pub id: u64,
    pub quality: VideoQuality,
    pub video_file_id: Option<u64>,
    pub output_dir: String,
}

/// Arguments of `videos download-first`.
pub struct VideoDownloadFirstArgs {
    pub search: VideoSearchArgs,
    pub quality: VideoQuality,
    pub video_file_id: Option<u64>,
    pub output_dir: String,
}

/// A command with its description and its subcommands, as character
/// sequences.
pub type CommandTreeView = Seq<(Seq<char>, Seq<char>, Seq<(Seq<char>, Seq<char>)>)>;

/// The commands of the program, each with its description and its
/// subcommands.
pub open spec fn command_tree_spec() -> CommandTreeView {
    seq![
        ("auth"@, ABOUT_AUTH@, seq![
            ("status"@, ABOUT_AUTH_STATUS@),
            ("login"@, ABOUT_AUTH_LOGIN@),
            ("logout"@, ABOUT_AUTH_LOGOUT@),
        ]),
        ("status"@, ABOUT_STATUS@, Seq::empty()),
        ("search"@, ABOUT_SEARCH@, Seq::empty()),
        ("download"@, ABOUT_DOWNLOAD@, Seq::empty()),
        ("download-first"@, ABOUT_DOWNLOAD_FIRST@, Seq::empty()),
        ("videos"@, ABOUT_VIDEOS@, seq![
            ("search"@, ABOUT_VIDEOS_SEARCH@),
            ("download"@, ABOUT_VIDEOS_DOWNLOAD@),
            ("download-first"@, ABOUT_VIDEOS_DOWNLOAD_FIRST@),
        ]),
    ]
}

/// A command tree, written with the program's static strings.
pub type CommandTree = Vec<(&'static str, &'static str, Vec<(&'static str, &'static str)>)>;

/// The view of a command tree.
pub open spec fn tree_view(
    t: Seq<(&'static str, &'static str, Vec<(&'static str, &'static str)>)>,
) -> CommandTreeView {
    t.map_values(
        |c: (&'static str, &'static str, Vec<(&'static str, &'static str)>)|
            (c.0@, c.1@, c.2@.map_values(|k: (&'static str, &'static str)| (k.0@, k.1@))),
    )
}

/// What `clap` prints for the arguments `args` (program name first) on a
/// program named `bin`, described by `about`, with the given commands:
/// the help page for `--help`, the usage error for a wrong invocation, and
/// nothing for one that parses.
pub uninterp spec fn clap_reply(bin: Seq<char>, about: Seq<char>, tree: CommandTreeView, args: Seq<Seq<char>>) -> Seq<char>;

/// Builds a `clap::Command` with the given commands and lets
/// `Command::try_get_matches_from` read `args`; returns the rendered
/// error (help pages are reported as errors), or nothing on a successful
/// parse. What `clap` renders is named, not stated. The tree must be the
/// program's own: `clap` panics on a tree that repeats a command name.
#[verifier::external_body]
fn clap_render(bin: &'static str, about: &'static str, tree: &CommandTree, args: &Vec<String>) -> (r:
    String)
    requires
        tree_view(tree@) == command_tree_spec(),
    ensures
        r@ == clap_reply(bin@, about@, tree_view(tree@), views(args@)),
{
    let cmd = clap::Command::new(bin).about(about).subcommands(
        tree.iter().map(|(name, about, kids)| {
            clap::Command::new(*name).about(*about).subcommands(
                kids.iter().map(|(k, a)| clap::Command::new(*k).about(*a)),
            )
        }),
    );
    match cmd.try_get_matches_from(args.iter()) {
        Ok(_) => String::new(),
        Err(e) => e.render().to_string(),
    }
}

/// The commands of the program with their descriptions.
pub fn command_tree() -> (r: CommandTree)
    ensures
        tree_view(r@) == command_tree_spec(),
{
    let mut auth: Vec<(&'static str, &'static str)> = Vec::new();
    auth.push(("status", ABOUT_AUTH_STATUS));
    auth.push(("login", ABOUT_AUTH_LOGIN));
    auth.push(("logout", ABOUT_AUTH_LOGOUT));
    let mut videos: Vec<(&'static str, &'static str)> = Vec::new();
    videos.push(("search", ABOUT_VIDEOS_SEARCH));
    videos.push(("download", ABOUT_VIDEOS_DOWNLOAD));
    videos.push(("download-first", ABOUT_VIDEOS_DOWNLOAD_FIRST));
    let mut r: CommandTree = Vec::new();
    r.push(("auth", ABOUT_AUTH, auth));
    r.push(("status", ABOUT_STATUS, Vec::new()));
    r.push(("search", ABOUT_SEARCH, Vec::new()));
    r.push(("download", ABOUT_DOWNLOAD, Vec::new()));
    r.push(("download-first", ABOUT_DOWNLOAD_FIRST, Vec::new()));
    r.push(("videos", ABOUT_VIDEOS, videos));
    assert(tree_view(r@) =~= command_tree_spec()) by {
        assert(tree_view(r@)[0].2 =~= command_tree_spec()[0].2);
        assert(tree_view(r@)[1].2 =~= command_tree_spec()[1].2);
        assert(tree_view(r@)[2].2 =~= command_tree_spec()[2].2);
        assert(tree_view(r@)[3].2 =~= command_tree_spec()[3].2);
        assert(tree_view(r@)[4].2 =~= command_tree_spec()[4].2);
        assert(tree_view(r@)[5].2 =~= command_tree_spec()[5].2);
    }
    r
}

/// The help page or usage error that `clap` gives for `args` (program
/// name first) on the command tree alone: the commands and subcommands
/// with their descriptions, without their options. The program's own
/// command-line parser shows these same descriptions, together with the
/// options.
pub fn help_reply(args: &Vec<String>) -> (r: String)
    ensures
        r@ == clap_reply("pexfetch"@, ABOUT_PEXFETCH@, command_tree_spec(), views(args@)),
{
    let tree = command_tree();
    clap_render("pexfetch", ABOUT_PEXFETCH, &tree, args)
}

} // verus!
