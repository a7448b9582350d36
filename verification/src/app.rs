//! The path context: the stable directories every other component uses,
//! derived once from the resolved working and home directories, plus the
//! parsed command line.

use vstd::prelude::*;
use vstd::string::*;
use crate::integrity::sha1_hex_of;
use crate::pipeline::InstallError;
use crate::strutil::str_eq;

verus! {

/// A command-line token is a flag when it starts with `-`.
pub open spec fn is_flag_tok(s: Seq<char>) -> bool {
    s.len() > 0 && s[0] == '-'
}

/// The command-line tokens after the program name and the subcommand.
pub open spec fn rest_args(s: Seq<String>) -> Seq<String> {
    if s.len() <= 2 {
        Seq::empty()
    } else {
        s.skip(2)
    }
}

/// The resolved path context and parsed command line of one invocation.
pub struct App {
    /// The project root: the resolved working directory.
    pub current_dir: String,
    /// The user's home directory; construction fails when none is known.
    pub home_dir: String,
    /// The project's dependency directory.
    pub node_modules_dir: String,
    /// The user-global content-addressed store root.
    pub volt_dir: String,
    /// Where the project's lockfile lives.
    pub lock_file_path: String,
    /// The positional command-line arguments, in order.
    pub args: Vec<String>,
    /// The command-line flags (tokens starting with `-`), in order.
    pub flags: Vec<String>,
}

impl App {
    /// Derive the path context from the resolved directories and split the
    /// raw command line: the first two tokens (program and subcommand) are
    /// skipped, the rest partition into flags and positional arguments with
    /// their order kept. No further operation is meaningful without a home
    /// directory, so its absence is a path-resolution failure — fatal at
    /// startup, never papered over with a stand-in directory.
    pub fn new(current_dir: String, home_dir: Option<String>, cli_args: Vec<String>) -> (r:
        Result<App, InstallError>)
        ensures
            (match home_dir {
                Option::None => r == Result::<App, InstallError>::Err(
                    InstallError::PathResolution,
                ),
                Option::Some(h) => (match r {
                    Result::Ok(app) => app.current_dir == current_dir && app.home_dir == h
                        && app.node_modules_dir@ == current_dir@ + "/node_modules"@
                        && app.volt_dir@ == h@ + "/.volt"@ && app.lock_file_path@ == current_dir@
                        + "/volt.lock"@ && app.flags@ == rest_args(cli_args@).filter(
                        |a: String| is_flag_tok(a@),
                    ) && app.args@ == rest_args(cli_args@).filter(|a: String| !is_flag_tok(a@)),
                    Result::Err(_) => false,
                }),
            }),
    {
        let home = match home_dir {
            Option::Some(h) => h,
            Option::None => {
                return Result::Err(InstallError::PathResolution);
            },
        };
        let node_modules_dir = current_dir.clone().concat("/node_modules");
        let volt_dir = home.clone().concat("/.volt");
        let lock_file_path = current_dir.clone().concat("/volt.lock");

        let mut args: Vec<String> = Vec::new();
        let mut flags: Vec<String> = Vec::new();
        let n = cli_args.len();
        if n > 2 {
            let mut i: usize = 2;
            proof {
                reveal(Seq::filter);
                assert(cli_args@.subrange(2, 2) =~= Seq::<String>::empty());
            }
            while i < n
                invariant
                    2 <= i <= n,
                    n == cli_args@.len(),
                    flags@ == cli_args@.subrange(2, i as int).filter(|a: String| is_flag_tok(a@)),
                    args@ == cli_args@.subrange(2, i as int).filter(
                        |a: String| !is_flag_tok(a@),
                    ),
                decreases n - i,
            {
                let arg = &cli_args[i];
                let is_flag = arg.as_str().unicode_len() > 0 && arg.as_str().get_char(0) == '-';
                proof {
                    reveal(Seq::filter);
                    let t = cli_args@.subrange(2, i as int);
                    let t2 = cli_args@.subrange(2, i + 1);
                    assert(t2.drop_last() =~= t);
                    assert(t2.last() == cli_args@[i as int]);
                }
                if is_flag {
                    flags.push(arg.clone());
                } else {
                    args.push(arg.clone());
                }
                i += 1;
            }
            proof {
                assert(cli_args@.subrange(2, i as int) =~= rest_args(cli_args@));
            }
        } else {
            proof {
                reveal(Seq::filter);
                assert(rest_args(cli_args@) =~= Seq::<String>::empty());
            }
        }
        Result::Ok(
            App {
                current_dir,
                home_dir: home,
                node_modules_dir,
                volt_dir,
                lock_file_path,
                args,
                flags,
            },
        )
    }

    /// Whether any parsed flag equals one of the given spellings.
    pub fn has_flag(&self, flags: &[&str]) -> (r: bool)
        ensures
            r == exists|i: int, j: int|
                0 <= i < self.flags@.len() && 0 <= j < flags@.len() && self.flags@[i]@
                    == flags@[j]@,
    {
        let mut i: usize = 0;
        while i < self.flags.len()
            invariant
                i <= self.flags@.len(),
                forall|a: int, b: int|
                    0 <= a < i && 0 <= b < flags@.len() ==> self.flags@[a]@ != flags@[b]@,
            decreases self.flags@.len() - i,
        {
            let mut j: usize = 0;
            while j < flags.len()
                invariant
                    i < self.flags@.len(),
                    j <= flags@.len(),
                    forall|b: int| 0 <= b < j ==> self.flags@[i as int]@ != flags@[b]@,
                decreases flags@.len() - j,
            {
                if str_eq(self.flags[i].as_str(), flags[j]) {
                    return true;
                }
                j += 1;
            }
            i += 1;
        }
        false
    }

    /// Reserved: in the flat store-and-link topology a package's own
    /// dependencies are not materialized as nested copies.
    pub fn create_dep_symlinks() {
    }

    /// The SHA-1 digest of an artifact's bytes, as 40 lowercase hex
    /// characters.
    pub fn calc_hash(data: &Vec<u8>) -> (r: String)
        ensures
            r@ == sha1_hex_of(data@),
            r@.len() == 40,
    {
        crate::integrity::sha1_hex(data)
    }
}

/// Prepare the console for ANSI escape sequences. On POSIX terminals they
/// are always available, so there is nothing to do and no way to fail.
pub fn enable_ansi_support() -> (r: Result<(), u32>)
    ensures
        r is Ok,
{
    Result::Ok(())
}

} // verus!
