//! Process management: the description of an application to spawn
//! (`pmix_app_t`) and its builder, and the wrappers that carry a closure to
//! the completion of a non-blocking spawn, connect or disconnect.

use vstd::prelude::*;
use crate::cstr::{contains_nul, first_nul_byte, is_c_compatible, is_first_zero_byte};
use vstd::utf8::encode_utf8;
use crate::status::{decode_status, PmixStatus};

verus! {

/// An optional text, taken by its characters.
pub open spec fn opt_text(o: Option<String>) -> Option<Seq<char>> {
    match o {
        Some(s) => Some(s@),
        None => None,
    }
}

/// The characters of each text of a list, in order.
pub open spec fn texts(v: Seq<String>) -> Seq<Seq<char>> {
    v.map_values(|s: String| s@)
}

/// An absent text, or one that can be passed as a C string.
pub open spec fn opt_c_compatible(o: Option<Seq<char>>) -> bool {
    match o {
        Some(s) => is_c_compatible(s),
        None => true,
    }
}

/// Every text of the list can be passed as a C string.
pub open spec fn all_c_compatible(items: Seq<Seq<char>>) -> bool {
    forall|i: int| 0 <= i < items.len() ==> is_c_compatible(#[trigger] items[i])
}

/// `i` is the first position of the list whose text holds a NUL character.
pub open spec fn is_first_nul(items: Seq<Seq<char>>, i: int) -> bool {
    &&& 0 <= i < items.len()
    &&& !is_c_compatible(items[i])
    &&& all_c_compatible(items.take(i))
}

/// Copy a list of texts that is to become a C string array, or report the
/// position of the first text that holds a NUL character.
fn copy_c_texts(items: &Vec<String>) -> (r: Result<Vec<String>, usize>)
    ensures
        r is Ok <==> all_c_compatible(texts(items@)),
        r matches Ok(v) ==> texts(v@) == texts(items@),
        r matches Err(i) ==> is_first_nul(texts(items@), i as int),
{
    let mut out: Vec<String> = Vec::new();
    let mut i: usize = 0;
    while i < items.len()
        invariant
            i <= items@.len(),
            out@.len() == i,
            forall|j: int| 0 <= j < i ==> #[trigger] out@[j]@ == items@[j]@,
            all_c_compatible(texts(items@).take(i as int)),
        decreases items@.len() - i,
    {
        let s = items[i].as_str();
        if contains_nul(s) {
            assert(texts(items@)[i as int] == items@[i as int]@);
            return Err(i);
        }
        out.push(s.to_owned());
        proof {
            let t = texts(items@);
            assert forall|j: int| 0 <= j < i + 1 implies is_c_compatible(
                #[trigger] t.take(i + 1)[j],
            ) by {
                if j < i {
                    assert(t.take(i as int)[j] == t[j]);
                } else {
                    assert(t[j] == items@[j]@);
                }
            }
        }
        i = i + 1;
    }
    proof {
        assert(texts(items@).take(i as int) =~= texts(items@));
        assert(texts(out@) =~= texts(items@));
    }
    Ok(out)
}

/// Copy a text that is to become a C string, or `None` when it holds a NUL
/// character.
fn copy_c_text(s: &String) -> (r: Option<String>)
    ensures
        r is Some <==> is_c_compatible(s@),
        r matches Some(c) ==> c@ == s@,
{
    if contains_nul(s.as_str()) {
        None
    } else {
        Some(s.as_str().to_owned())
    }
}

/// Where [`PmixAppBuilder::build`] found the first NUL character, checking
/// the command, then the arguments in order, then the environment entries
/// in order, then the working directory.
#[derive(Debug, Clone, Copy, PartialEq, Eq, Structural)]
pub enum NulLocation {
    /// In the command.
    Cmd,
    /// In the argument at this position.
    Arg(usize),
    /// In the environment entry at this position.
    Env(usize),
    /// In the working directory.
    Cwd,
}

/// Why [`PmixAppBuilder::build`] refused: the first text holding a NUL
/// character, and the byte position of the first NUL byte in that text's
/// UTF-8 encoding (the position `CString::new` reports).
#[derive(Debug, Clone, Copy, PartialEq, Eq, Structural)]
pub struct AppNulError {
    pub location: NulLocation,
    pub nul_position: usize,
}

/// A safe description of one application to spawn (`pmix_app_t`): the
/// executable, its arguments and environment (`KEY=VALUE` entries), its
/// working directory and the maximum number of processes. Every text it
/// holds can be passed as a C string.
#[derive(Debug)]
pub struct PmixApp {
    cmd: Option<String>,
    argv: Vec<String>,
    env: Vec<String>,
    cwd: Option<String>,
    maxprocs: i32,
}

impl PmixApp {
    /// No text of the application holds a NUL character.
    #[verifier::type_invariant]
    closed spec fn texts_are_c_compatible(&self) -> bool {
        &&& opt_c_compatible(opt_text(self.cmd))
        &&& all_c_compatible(texts(self.argv@))
        &&& all_c_compatible(texts(self.env@))
        &&& opt_c_compatible(opt_text(self.cwd))
    }

    /// The command.
    pub closed spec fn cmd_text(&self) -> Option<Seq<char>> {
        opt_text(self.cmd)
    }

    /// The arguments, in order.
    pub closed spec fn arg_texts(&self) -> Seq<Seq<char>> {
        texts(self.argv@)
    }

    /// The environment entries, in order.
    pub closed spec fn env_texts(&self) -> Seq<Seq<char>> {
        texts(self.env@)
    }

    /// The working directory.
    pub closed spec fn cwd_text(&self) -> Option<Seq<char>> {
        opt_text(self.cwd)
    }

    /// The maximum number of processes (0: the default).
    pub closed spec fn maxprocs_value(&self) -> i32 {
        self.maxprocs
    }

    /// Create a builder for constructing a `PmixApp`.
    pub fn builder() -> (b: PmixAppBuilder)
        ensures
            b.is_blank(),
    {
        PmixAppBuilder::new()
    }

    /// The command path.
    pub fn cmd(&self) -> (r: Option<&str>)
        ensures
            (match r {
                Some(s) => Some(s@),
                None => None,
            }) == self.cmd_text(),
    {
        match &self.cmd {
            Some(c) => Some(c.as_str()),
            None => None,
        }
    }

    /// The command-line arguments.
    pub fn argv(&self) -> (r: &[String])
        ensures
            texts(r@) == self.arg_texts(),
    {
        self.argv.as_slice()
    }

    /// The environment entries.
    pub fn env_vars(&self) -> (r: &[String])
        ensures
            texts(r@) == self.env_texts(),
    {
        self.env.as_slice()
    }

    /// The working directory.
    pub fn cwd(&self) -> (r: Option<&str>)
        ensures
            (match r {
                Some(s) => Some(s@),
                None => None,
            }) == self.cwd_text(),
    {
        match &self.cwd {
            Some(c) => Some(c.as_str()),
            None => None,
        }
    }

    /// The maximum number of processes.
    pub fn maxprocs(&self) -> (n: i32)
        ensures
            n == self.maxprocs_value(),
    {
        self.maxprocs
    }
}

/// Builder for [`PmixApp`]: collects the texts as given; [`build`](Self::build)
/// checks them.
#[derive(Debug)]
pub struct PmixAppBuilder {
    cmd: Option<String>,
    argv: Vec<String>,
    env: Vec<String>,
    cwd: Option<String>,
    maxprocs: i32,
}

impl PmixAppBuilder {
    /// The command set so far.
    pub closed spec fn cmd_text(&self) -> Option<Seq<char>> {
        opt_text(self.cmd)
    }

    /// The arguments added so far, in order.
    pub closed spec fn arg_texts(&self) -> Seq<Seq<char>> {
        texts(self.argv@)
    }

    /// The environment entries added so far, in order.
    pub closed spec fn env_texts(&self) -> Seq<Seq<char>> {
        texts(self.env@)
    }

    /// The working directory set so far.
    pub closed spec fn cwd_text(&self) -> Option<Seq<char>> {
        opt_text(self.cwd)
    }

    /// The maximum number of processes set so far.
    pub closed spec fn maxprocs_value(&self) -> i32 {
        self.maxprocs
    }

    /// Nothing has been set: no command, arguments, environment or working
    /// directory, and `maxprocs` 0.
    pub open spec fn is_blank(&self) -> bool {
        &&& self.cmd_text() is None
        &&& self.arg_texts().len() == 0
        &&& self.env_texts().len() == 0
        &&& self.cwd_text() is None
        &&& self.maxprocs_value() == 0
    }

    /// Every text collected so far can be passed as a C string.
    pub open spec fn is_buildable(&self) -> bool {
        &&& opt_c_compatible(self.cmd_text())
        &&& all_c_compatible(self.arg_texts())
        &&& all_c_compatible(self.env_texts())
        &&& opt_c_compatible(self.cwd_text())
    }

    /// `loc` is where `build` finds the first NUL character.
    pub open spec fn first_nul_at(&self, loc: NulLocation) -> bool {
        match loc {
            NulLocation::Cmd => !opt_c_compatible(self.cmd_text()),
            NulLocation::Arg(i) => opt_c_compatible(self.cmd_text()) && is_first_nul(
                self.arg_texts(),
                i as int,
            ),
            NulLocation::Env(i) => opt_c_compatible(self.cmd_text()) && all_c_compatible(
                self.arg_texts(),
            ) && is_first_nul(self.env_texts(), i as int),
            NulLocation::Cwd => opt_c_compatible(self.cmd_text()) && all_c_compatible(
                self.arg_texts(),
            ) && all_c_compatible(self.env_texts()) && !opt_c_compatible(self.cwd_text()),
        }
    }

    /// The text at `loc` (empty where there is none).
    pub open spec fn text_at(&self, loc: NulLocation) -> Seq<char> {
        match loc {
            NulLocation::Cmd => match self.cmd_text() {
                Some(t) => t,
                None => Seq::empty(),
            },
            NulLocation::Arg(i) => self.arg_texts()[i as int],
            NulLocation::Env(i) => self.env_texts()[i as int],
            NulLocation::Cwd => match self.cwd_text() {
                Some(t) => t,
                None => Seq::empty(),
            },
        }
    }

    /// `other` differs from this builder at most in the command.
    pub open spec fn same_but_cmd(&self, other: &Self) -> bool {
        &&& other.arg_texts() == self.arg_texts()
        &&& other.env_texts() == self.env_texts()
        &&& other.cwd_text() == self.cwd_text()
        &&& other.maxprocs_value() == self.maxprocs_value()
    }

    /// `other` differs from this builder at most in the arguments.
    pub open spec fn same_but_args(&self, other: &Self) -> bool {
        &&& other.cmd_text() == self.cmd_text()
        &&& other.env_texts() == self.env_texts()
        &&& other.cwd_text() == self.cwd_text()
        &&& other.maxprocs_value() == self.maxprocs_value()
    }

    /// `other` differs from this builder at most in the environment.
    pub open spec fn same_but_env(&self, other: &Self) -> bool {
        &&& other.cmd_text() == self.cmd_text()
        &&& other.arg_texts() == self.arg_texts()
        &&& other.cwd_text() == self.cwd_text()
        &&& other.maxprocs_value() == self.maxprocs_value()
    }

    /// `other` differs from this builder at most in the working directory.
    pub open spec fn same_but_cwd(&self, other: &Self) -> bool {
        &&& other.cmd_text() == self.cmd_text()
        &&& other.arg_texts() == self.arg_texts()
        &&& other.env_texts() == self.env_texts()
        &&& other.maxprocs_value() == self.maxprocs_value()
    }

    /// `other` differs from this builder at most in `maxprocs`.
    pub open spec fn same_but_maxprocs(&self, other: &Self) -> bool {
        &&& other.cmd_text() == self.cmd_text()
        &&& other.arg_texts() == self.arg_texts()
        &&& other.env_texts() == self.env_texts()
        &&& other.cwd_text() == self.cwd_text()
    }

    /// Create a new builder with default values.
    pub fn new() -> (b: Self)
        ensures
            b.is_blank(),
    {
        let b = PmixAppBuilder { cmd: None, argv: Vec::new(), env: Vec::new(), cwd: None, maxprocs: 0 };
        assert(b.arg_texts() =~= Seq::empty());
        assert(b.env_texts() =~= Seq::empty());
        b
    }

    /// Set the executable command path, replacing any earlier one.
    pub fn cmd(&mut self, cmd: &str) -> (r: &mut Self)
        ensures
            r.cmd_text() == Some(cmd@),
            old(self).same_but_cmd(r),
            *final(self) == *final(r),
    {
        self.cmd = Some(cmd.to_owned());
        self
    }

    /// Add a command-line argument.
    pub fn arg(&mut self, arg: &str) -> (r: &mut Self)
        ensures
            r.arg_texts() == old(self).arg_texts().push(arg@),
            old(self).same_but_args(r),
            *final(self) == *final(r),
    {
        self.argv.push(arg.to_owned());
        proof {
            assert(texts(self.argv@) =~= texts(old(self).argv@).push(arg@));
        }
        self
    }

    /// Add several command-line arguments, in order.
    pub fn args(&mut self, args: Vec<String>) -> (r: &mut Self)
        ensures
            r.arg_texts() == old(self).arg_texts() + texts(args@),
            old(self).same_but_args(r),
            *final(self) == *final(r),
    {
        let mut more = args;
        self.argv.append(&mut more);
        proof {
            assert(texts(self.argv@) =~= texts(old(self).argv@) + texts(args@));
        }
        self
    }

    /// Add an environment entry in `KEY=VALUE` form.
    pub fn env(&mut self, env: &str) -> (r: &mut Self)
        ensures
            r.env_texts() == old(self).env_texts().push(env@),
            old(self).same_but_env(r),
            *final(self) == *final(r),
    {
        self.env.push(env.to_owned());
        proof {
            assert(texts(self.env@) =~= texts(old(self).env@).push(env@));
        }
        self
    }

    /// Add several environment entries, in order.
    pub fn envs(&mut self, envs: Vec<String>) -> (r: &mut Self)
        ensures
            r.env_texts() == old(self).env_texts() + texts(envs@),
            old(self).same_but_env(r),
            *final(self) == *final(r),
    {
        let mut more = envs;
        self.env.append(&mut more);
        proof {
            assert(texts(self.env@) =~= texts(old(self).env@) + texts(envs@));
        }
        self
    }

    /// Set the working directory, replacing any earlier one.
    pub fn cwd(&mut self, cwd: &str) -> (r: &mut Self)
        ensures
            r.cwd_text() == Some(cwd@),
            old(self).same_but_cwd(r),
            *final(self) == *final(r),
    {
        self.cwd = Some(cwd.to_owned());
        self
    }

    /// Build the `PmixApp`.
    ///
    /// # Errors
    /// Where the first NUL character is, when a text holds one: the
    /// command, then the arguments in order, then the environment entries
    /// in order, then the working directory are checked; with it, the byte
    /// position of the first NUL byte in that text.
    pub fn build(&self) -> (r: Result<PmixApp, AppNulError>)
        ensures
            r is Ok <==> self.is_buildable(),
            r matches Ok(app) ==> {
                &&& app.cmd_text() == self.cmd_text()
                &&& app.arg_texts() == self.arg_texts()
                &&& app.env_texts() == self.env_texts()
                &&& app.cwd_text() == self.cwd_text()
                &&& app.maxprocs_value() == self.maxprocs_value()
            },
            r matches Err(e) ==> {
                &&& self.first_nul_at(e.location)
                &&& is_first_zero_byte(encode_utf8(self.text_at(e.location)), e.nul_position as int)
            },
    {
        let cmd = match &self.cmd {
            Some(c) => match copy_c_text(c) {
                Some(copy) => Some(copy),
                None => {
                    let p = first_nul_byte(c.as_str());
                    return Err(AppNulError { location: NulLocation::Cmd, nul_position: p });
                },
            },
            None => None,
        };
        let argv = match copy_c_texts(&self.argv) {
            Ok(v) => v,
            Err(i) => {
                assert(texts(self.argv@)[i as int] == self.argv@[i as int]@);
                let p = first_nul_byte(self.argv[i].as_str());
                return Err(AppNulError { location: NulLocation::Arg(i), nul_position: p });
            },
        };
        let env = match copy_c_texts(&self.env) {
            Ok(v) => v,
            Err(i) => {
                assert(texts(self.env@)[i as int] == self.env@[i as int]@);
                let p = first_nul_byte(self.env[i].as_str());
                return Err(AppNulError { location: NulLocation::Env(i), nul_position: p });
            },
        };
        let cwd = match &self.cwd {
            Some(c) => match copy_c_text(c) {
                Some(copy) => Some(copy),
                None => {
                    let p = first_nul_byte(c.as_str());
                    return Err(AppNulError { location: NulLocation::Cwd, nul_position: p });
                },
            },
            None => None,
        };
        Ok(PmixApp { cmd, argv, env, cwd, maxprocs: self.maxprocs })
    }

    /// Set the maximum number of processes (0 means the default).
    pub fn maxprocs(&mut self, maxprocs: i32) -> (r: &mut Self)
        ensures
            r.maxprocs_value() == maxprocs,
            old(self).same_but_maxprocs(r),
            *final(self) == *final(r),
    {
        self.maxprocs = maxprocs;
        self
    }
}


/// Two first NUL positions of one list are the same position.
proof fn lemma_first_nul_index_unique(items: Seq<Seq<char>>, i: int, j: int)
    requires
        is_first_nul(items, i),
        is_first_nul(items, j),
    ensures
        i == j,
{
    if i < j {
        assert(items.take(j)[i] == items[i]);
    } else if j < i {
        assert(items.take(i)[j] == items[j]);
    }
}

/// The place of the first NUL character that `build` reports is unique:
/// no two places both fit its description.
pub proof fn lemma_first_nul_location_unique(b: &PmixAppBuilder, l1: NulLocation, l2: NulLocation)
    requires
        b.first_nul_at(l1),
        b.first_nul_at(l2),
    ensures
        l1 == l2,
{
    match (l1, l2) {
        (NulLocation::Arg(i), NulLocation::Arg(j)) => {
            lemma_first_nul_index_unique(b.arg_texts(), i as int, j as int);
        },
        (NulLocation::Env(i), NulLocation::Env(j)) => {
            lemma_first_nul_index_unique(b.env_texts(), i as int, j as int);
        },
        (NulLocation::Arg(i), _) => {
            assert(!is_c_compatible(b.arg_texts()[i as int]));
        },
        (_, NulLocation::Arg(j)) => {
            assert(!is_c_compatible(b.arg_texts()[j as int]));
        },
        (NulLocation::Env(i), _) => {
            assert(!is_c_compatible(b.env_texts()[i as int]));
        },
        (_, NulLocation::Env(j)) => {
            assert(!is_c_compatible(b.env_texts()[j as int]));
        },
        _ => {},
    }
}

impl Default for PmixAppBuilder {
    /// A builder with nothing set.
    fn default() -> (b: Self)
        ensures
            b.is_blank(),
    {
        PmixAppBuilder::new()
    }
}

/// What a spawn completion hands to the closure: the decoded status and,
/// only on success, the namespace of the spawned job.
pub fn spawn_completion(raw: i32, nspace: Option<String>) -> (r: (PmixStatus, Option<String>))
    ensures
        r.0 == decode_status(raw as int),
        raw >= 0 ==> r.1 == nspace,
        raw < 0 ==> r.1 is None,
{
    let s = PmixStatus::from_raw(raw);
    if s.is_success() {
        (s, nspace)
    } else {
        (s, None)
    }
}

/// Non-blocking spawn callback wrapper.
///
/// Wraps a Rust closure that receives `(PmixStatus, Option<String>)`, where
/// the `String` is the spawned namespace (present only on success).
pub struct SpawnCallbackWrapper<F> {
    pub callback: F,
}

impl<F: Fn(PmixStatus, Option<String>) + Send + 'static> SpawnCallbackWrapper<F> {
    /// Create a new wrapper around a Rust closure.
    pub fn new(f: F) -> (w: Self)
        ensures
            w.callback == f,
    {
        SpawnCallbackWrapper { callback: f }
    }
}

/// Non-blocking connect callback wrapper: carries the closure that receives
/// the completion status.
pub struct ConnectCallbackWrapper<F> {
    pub callback: F,
}

impl<F: Fn(PmixStatus) + Send + 'static> ConnectCallbackWrapper<F> {
    /// Create a new wrapper around a Rust closure.
    pub fn new(f: F) -> (w: Self)
        ensures
            w.callback == f,
    {
        ConnectCallbackWrapper { callback: f }
    }
}

/// Non-blocking disconnect callback wrapper: carries the closure that
/// receives the completion status.
pub struct DisconnectCallbackWrapper<F> {
    pub callback: F,
}

impl<F: Fn(PmixStatus) + Send + 'static> DisconnectCallbackWrapper<F> {
    /// Create a new wrapper around a Rust closure.
    pub fn new(f: F) -> (w: Self)
        ensures
            w.callback == f,
    {
        DisconnectCallbackWrapper { callback: f }
    }
}

} // verus!
