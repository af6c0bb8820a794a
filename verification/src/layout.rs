//! Where the language-server package lives on disk.

use vstd::prelude::*;

verus! {

/// The two ways the installed package can be launched.
#[derive(Clone, Copy, Debug, PartialEq, Eq, Structural)]
pub enum ServerMode {
    /// The Language Server Protocol entry point.
    Lsp,
    /// The context-server entry point.
    ContextServer,
}

/// Name of the npm package that ships both entry points.
pub const PACKAGE_NAME: &'static str = "stimulus-language-server";

/// Install-relative path of the LSP entry script.
pub const LSP_SERVER_PATH: &'static str = "node_modules/stimulus-language-server/out/server.js";

/// Install-relative path of the context-server entry script.
pub const MCP_SERVER_PATH: &'static str =
    "node_modules/stimulus-language-server/out/mcp-server/server.js";

/// The script that has to exist on disk for `mode` to be launchable.
pub open spec fn expected_path(mode: ServerMode) -> Seq<char> {
    match mode {
        ServerMode::Lsp => LSP_SERVER_PATH@,
        ServerMode::ContextServer => MCP_SERVER_PATH@,
    }
}

impl ServerMode {
    /// The install-relative path of this mode's entry script.
    pub fn expected_path(self) -> (path: &'static str)
        ensures
            path@ == expected_path(self),
    {
        match self {
            ServerMode::Lsp => LSP_SERVER_PATH,
            ServerMode::ContextServer => MCP_SERVER_PATH,
        }
    }
}

/// Both entry scripts lie inside the package as npm installs it: under
/// `node_modules`, in the directory named after the package, below `out`.
pub proof fn lemma_scripts_lie_in_the_package()
    ensures
        expected_path(ServerMode::Lsp) == "node_modules/"@ + PACKAGE_NAME@ + "/out/server.js"@,
        expected_path(ServerMode::ContextServer) == "node_modules/"@ + PACKAGE_NAME@
            + "/out/mcp-server/server.js"@,
{
    reveal_strlit("node_modules/");
    reveal_strlit("stimulus-language-server");
    reveal_strlit("/out/server.js");
    reveal_strlit("/out/mcp-server/server.js");
    reveal_strlit("node_modules/stimulus-language-server/out/server.js");
    reveal_strlit("node_modules/stimulus-language-server/out/mcp-server/server.js");
    assert(LSP_SERVER_PATH@ =~= "node_modules/"@ + PACKAGE_NAME@ + "/out/server.js"@);
    assert(MCP_SERVER_PATH@ =~= "node_modules/"@ + PACKAGE_NAME@ + "/out/mcp-server/server.js"@);
}

/// The two modes expect different scripts, and both paths are relative: neither
/// starts at the root of the file system.
pub proof fn lemma_expected_paths_are_relative_and_distinct()
    ensures
        expected_path(ServerMode::Lsp) != expected_path(ServerMode::ContextServer),
        forall|mode: ServerMode|
            (#[trigger] expected_path(mode)).len() > 0 && expected_path(mode)[0] != '/',
{
    reveal_strlit("node_modules/stimulus-language-server/out/server.js");
    reveal_strlit("node_modules/stimulus-language-server/out/mcp-server/server.js");
    assert(expected_path(ServerMode::Lsp).len() != expected_path(ServerMode::ContextServer).len());
    assert forall|mode: ServerMode|
        (#[trigger] expected_path(mode)).len() > 0 && expected_path(mode)[0] != '/' by {
        match mode {
            ServerMode::Lsp => {},
            ServerMode::ContextServer => {},
        }
    }
}

/// The absolute form of `relative` under the directory `root`: the two joined
/// by one `/`, which is left out where `root` is empty or ends in one already.
/// A `relative` that starts at `/` is absolute as it stands.
pub open spec fn joined(root: Seq<char>, relative: Seq<char>) -> Seq<char> {
    if relative.len() > 0 && relative[0] == '/' {
        relative
    } else if root.len() == 0 || root.last() == '/' {
        root + relative
    } else {
        root + seq!['/'] + relative
    }
}

/// An expected script always ends up below `root`: its absolute form is
/// `root`, a separator unless `root` is empty or ends in one, and the
/// install-relative path.
pub proof fn lemma_script_is_joined_under_root(root: Seq<char>, mode: ServerMode)
    ensures
        joined(root, expected_path(mode)) == if root.len() == 0 || root.last() == '/' {
            root + expected_path(mode)
        } else {
            root + seq!['/'] + expected_path(mode)
        },
{
    lemma_expected_paths_are_relative_and_distinct();
}

/// Joins `relative` to the directory `root`.
pub fn absolute_path(root: &str, relative: &str) -> (path: String)
    ensures
        path@ == joined(root@, relative@),
{
    if relative.unicode_len() > 0 && relative.get_char(0) == '/' {
        return relative.to_owned();
    }
    let root_len: usize = root.unicode_len();
    let mut path = root.to_owned();
    if root_len > 0 && root.get_char(root_len - 1) != '/' {
        proof {
            reveal_strlit("/");
        }
        path.append("/");
        assert(path@ =~= root@ + seq!['/']);
    }
    path.append(relative);
    path
}

} // verus!
