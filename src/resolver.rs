//! Locating the `mtlog-lsp` binary, and the per-session cache of its path.

use vstd::prelude::*;

verus! {

/// What the host tells about one worktree when a server is started: the
/// binary path given in the settings, the answer of a PATH lookup for the
/// binary's name, and the shell environment as name/value pairs.
pub struct WorktreeSnapshot {
    pub explicit_path: Option<String>,
    pub path_hit: Option<String>,
    pub env: Vec<(String, String)>,
}

/// The value of `key` in an environment given as pairs. A later pair shadows
/// an earlier one of the same name, as when the pairs are collected into a map.
pub open spec fn env_value(env: Seq<(String, String)>, key: Seq<char>) -> Option<Seq<char>>
    decreases env.len(),
{
    if env.len() == 0 {
        None
    } else if env.last().0@ == key {
        Some(env.last().1@)
    } else {
        env_value(env.drop_last(), key)
    }
}

/// An optional string seen as an optional sequence of characters.
pub open spec fn opt_view(o: Option<String>) -> Option<Seq<char>> {
    match o {
        Some(s) => Some(s@),
        None => None,
    }
}

/// The path that a search over `w` finds: the explicit setting, then the PATH
/// hit, then `$GOBIN/mtlog-lsp`, `$GOPATH/bin/mtlog-lsp` and
/// `$HOME/go/bin/mtlog-lsp`; the first that exists wins.
pub open spec fn resolved_path(w: WorktreeSnapshot) -> Option<Seq<char>> {
    if w.explicit_path is Some {
        opt_view(w.explicit_path)
    } else if w.path_hit is Some {
        opt_view(w.path_hit)
    } else if env_value(w.env@, "GOBIN"@) is Some {
        Some(env_value(w.env@, "GOBIN"@).unwrap() + "/mtlog-lsp"@)
    } else if env_value(w.env@, "GOPATH"@) is Some {
        Some(env_value(w.env@, "GOPATH"@).unwrap() + "/bin/mtlog-lsp"@)
    } else if env_value(w.env@, "HOME"@) is Some {
        Some(env_value(w.env@, "HOME"@).unwrap() + "/go/bin/mtlog-lsp"@)
    } else {
        None
    }
}

/// Looks `key` up in the environment pairs; the last pair of that name wins.
pub fn env_lookup(env: &Vec<(String, String)>, key: &str) -> (r: Option<String>)
    ensures
        opt_view(r) == env_value(env@, key@),
{
    let wanted = String::from_str(key);
    let mut i: usize = env.len();
    assert(env@.subrange(0, i as int) =~= env@);
    while i > 0
        invariant
            i <= env.len(),
            wanted@ == key@,
            env_value(env@, key@) == env_value(env@.subrange(0, i as int), key@),
        decreases i,
    {
        let pair = &env[i - 1];
        assert(env@.subrange(0, i - 1) =~= env@.subrange(0, i as int).drop_last());
        let ghost prefix = env@.subrange(0, i as int);
        assert(prefix.last() == env@[i - 1]);
        assert(env_value(prefix, key@) == if prefix.last().0@ == key@ {
            Some(prefix.last().1@)
        } else {
            env_value(prefix.drop_last(), key@)
        });
        if pair.0 == wanted {
            return Some(pair.1.clone());
        }
        i = i - 1;
    }
    None
}

/// The message given when no source yields a path: every source searched,
/// and the command that installs the binary.
pub open spec fn not_found_message() -> Seq<char> {
    "mtlog-lsp not found in PATH or standard Go locations.\nSearched: PATH, $GOBIN, $GOPATH/bin, ~/go/bin\nPlease install with: go install github.com/willibrandon/mtlog/cmd/mtlog-lsp@latest"@
}

/// How the host launches the server: the command, with no arguments and no
/// extra environment.
pub struct LaunchCommand {
    pub command: String,
    pub args: Vec<String>,
    pub env: Vec<(String, String)>,
}

/// The state of the extension for one session: the binary path, once found.
pub struct MtlogAnalyzerExtension {
    pub cached_binary_path: Option<String>,
}

/// One command request, as a step from the cached path and the worktree to
/// the new cached path and the path launched (or the error message). A
/// cached path is used as it is; otherwise a path found is cached.
pub open spec fn command_step(cached: Option<Seq<char>>, w: WorktreeSnapshot) -> (
    Option<Seq<char>>,
    Result<Seq<char>, Seq<char>>,
) {
    match cached {
        Some(p) => (Some(p), Ok(p)),
        None => match resolved_path(w) {
            Some(p) => (Some(p), Ok(p)),
            None => (None, Err(not_found_message())),
        },
    }
}

/// The view of a command request's outcome: the path launched, or the message.
pub open spec fn launched(r: Result<LaunchCommand, String>) -> Result<Seq<char>, Seq<char>> {
    match r {
        Ok(c) => Ok(c.command@),
        Err(e) => Err(e@),
    }
}

/// A path once launched is launched again by the next request, whatever the
/// worktree holds by then: the cache is never revalidated.
pub proof fn lemma_cached_path_is_kept(
    cached: Option<Seq<char>>,
    first: WorktreeSnapshot,
    second: WorktreeSnapshot,
)
    requires
        command_step(cached, first).1 is Ok,
    ensures
        command_step(command_step(cached, first).0, second).1 == command_step(cached, first).1,
{
}

impl MtlogAnalyzerExtension {
    /// A fresh extension, with nothing cached.
    pub fn new() -> (r: Self)
        ensures
            r.cached_binary_path is None,
    {
        MtlogAnalyzerExtension { cached_binary_path: None }
    }

    /// Searches the sources of `worktree` in priority order and returns the
    /// first path that one of them yields. Whether the file exists is not tested.
    pub fn find_mtlog_lsp(&self, worktree: &WorktreeSnapshot) -> (r: Option<String>)
        ensures
            opt_view(r) == resolved_path(*worktree),
    {
        if let Some(path) = &worktree.explicit_path {
            return Some(path.clone());
        }
        if let Some(path) = &worktree.path_hit {
            return Some(path.clone());
        }
        if let Some(gobin) = env_lookup(&worktree.env, "GOBIN") {
            return Some(gobin.concat("/mtlog-lsp"));
        }
        if let Some(gopath) = env_lookup(&worktree.env, "GOPATH") {
            return Some(gopath.concat("/bin/mtlog-lsp"));
        }
        if let Some(home) = env_lookup(&worktree.env, "HOME") {
            return Some(home.concat("/go/bin/mtlog-lsp"));
        }
        None
    }

    /// The command that starts the server. The first path found is cached and
    /// returned by every later call, whatever the worktree says then. There
    /// is no fixed fallback directory: when no source yields a path, the
    /// request fails with `not_found_message` and nothing is cached.
    pub fn language_server_command(&mut self, worktree: &WorktreeSnapshot) -> (r: Result<
        LaunchCommand,
        String,
    >)
        ensures
            (opt_view(final(self).cached_binary_path), launched(r)) == command_step(
                opt_view(old(self).cached_binary_path),
                *worktree,
            ),
            r matches Ok(c) ==> c.args@.len() == 0 && c.env@.len() == 0,
    {
        let binary_path = match &self.cached_binary_path {
            Some(path) => path.clone(),
            None => match self.find_mtlog_lsp(worktree) {
                Some(path) => {
                    self.cached_binary_path = Some(path.clone());
                    path
                },
                None => {
                    return Err(
                        String::from_str(
                            "mtlog-lsp not found in PATH or standard Go locations.\nSearched: PATH, $GOBIN, $GOPATH/bin, ~/go/bin\nPlease install with: go install github.com/willibrandon/mtlog/cmd/mtlog-lsp@latest",
                        ),
                    );
                },
            },
        };
        Ok(LaunchCommand { command: binary_path, args: Vec::new(), env: Vec::new() })
    }
}

} // verus!
