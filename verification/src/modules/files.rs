//! Files whose content comes from a secret, written in the working directory.
use vstd::prelude::*;
use crate::error::NovopsError;
use crate::modules::variables::VariableOutput;
use crate::novops_core::{BytesResolvableInput, NovopsContext, ResolveTo};
use crate::text::{copy_string, hex_spec, path_join, path_join_spec, to_hex_lower};

verus! {

/// A file to generate.
#[derive(Debug, Clone, PartialEq)]
pub struct FileInput {
    /// File name used when generating names; informational.
    pub name: Option<String>,
    /// Deprecated: where to write the file instead of the secure working directory.
    pub dest: Option<String>,
    /// A symbolic link to create, pointing to the generated file.
    pub symlink: Option<String>,
    /// Environment variable that points to the generated file.
    pub variable: Option<String>,
    /// File content.
    pub content: BytesResolvableInput,
}

/// A resolved file: where it goes, its symlink, the variable pointing to it, its content.
#[derive(Debug, Clone, PartialEq)]
pub struct FileOutput {
    pub dest: String,
    pub symlink: Option<String>,
    pub variable: VariableOutput,
    pub content: Vec<u8>,
}

/// The SHA-256 digest of the bytes, as the `sha2` crate computes it.
pub uninterp spec fn sha256_digest(data: Seq<u8>) -> Seq<u8>;

/// The text in snake case, as `convert_case` converts it with `Case::Snake`.
pub uninterp spec fn snake_case(s: Seq<char>) -> Seq<char>;

/// The text in upper case, as `str::to_uppercase` gives it.
pub uninterp spec fn uppercase(s: Seq<char>) -> Seq<char>;

/// Calls `sha2::Sha256` (new, update, finalize): the 32-byte digest, named `sha256_digest`.
#[verifier::external_body]
fn sha256(data: &Vec<u8>) -> (r: Vec<u8>)
    ensures
        r@ == sha256_digest(data@),
        r@.len() == 32,
{
    let mut hasher = <sha2::Sha256 as sha2::Digest>::new();
    sha2::Digest::update(&mut hasher, data);
    sha2::Digest::finalize(hasher).to_vec()
}

/// Calls `convert_case::Casing::to_case` with `Case::Snake`; named `snake_case`.
#[verifier::external_body]
fn to_snake_case(s: &str) -> (r: String)
    ensures
        r@ == snake_case(s@),
{
    convert_case::Casing::to_case(&s, convert_case::Case::Snake)
}

/// Calls `str::to_uppercase`; named `uppercase`.
#[verifier::external_body]
fn to_uppercase(s: &str) -> (r: String)
    ensures
        r@ == uppercase(s@),
{
    s.to_uppercase()
}

pub open spec fn file_prefix() -> Seq<char> {
    seq!['f', 'i', 'l', 'e', '_']
}

/// The generated file name part: the content's SHA-256 digest in lowercase hexadecimal.
pub open spec fn content_name(content: Seq<u8>) -> Seq<char> {
    hex_spec(sha256_digest(content))
}

impl FileInput {
    /// At least one of `symlink`, `variable` or `dest` is set.
    pub open spec fn has_target(self) -> bool {
        self.symlink is Some || self.variable is Some || self.dest is Some
    }

    /// Where the file goes: `dest` when set, otherwise `file_<hash>` in the working directory.
    pub open spec fn dest_spec(self, workdir: Seq<char>, content: Seq<u8>) -> Seq<char> {
        match self.dest {
            Some(d) => d@,
            None => path_join_spec(workdir, file_prefix() + content_name(content)),
        }
    }

    /// The variable pointing to the file: `variable` when set, otherwise
    /// `NOVOPS_<APP>_FILE_<HASH>` with application name and hash in upper snake case.
    pub open spec fn variable_name_spec(self, app_name: Seq<char>, content: Seq<u8>) -> Seq<char> {
        match self.variable {
            Some(v) => v@,
            None => "NOVOPS_"@ + uppercase(snake_case(app_name)) + "_FILE_"@ + uppercase(
                snake_case(content_name(content)),
            ),
        }
    }

    /// Fails when none of `symlink`, `variable` or `dest` is set, since no
    /// deterministic name could be given to the file's variable.
    pub fn check_target(&self) -> (r: Result<(), NovopsError>)
        ensures
            self.has_target() ==> r is Ok,
            !self.has_target() ==> r == Err::<(), NovopsError>(NovopsError::FileInputWithoutTarget),
            r is Err <==> (self.symlink is None && self.variable is None && self.dest is None),
    {
        if self.symlink.is_none() && self.variable.is_none() && self.dest.is_none() {
            return Err(NovopsError::FileInputWithoutTarget);
        }
        Ok(())
    }

    /// The output of this input once its content is known.
    pub fn output_for(&self, ctx: &NovopsContext, content: Vec<u8>) -> (r: Result<FileOutput, NovopsError>)
        ensures
            !self.has_target() ==> r == Err::<FileOutput, NovopsError>(NovopsError::FileInputWithoutTarget),
            self.has_target() ==> (r matches Ok(o) && o.content@ == content@ && o.dest@ == self.dest_spec(
                ctx.workdir@,
                content@,
            ) && o.symlink == self.symlink && o.variable.name@ == self.variable_name_spec(
                ctx.app_name@,
                content@,
            ) && o.variable.value@ == o.dest@ && o.variable.quote_method is None),
            r is Err <==> (self.symlink is None && self.variable is None && self.dest is None),
            self.symlink is Some ==> (r matches Ok(o) && o.symlink == self.symlink),
    {
        self.check_target()?;
        let digest = sha256(&content);
        let fname = to_hex_lower(&digest);
        let dest = match &self.dest {
            Some(s) => copy_string(s.as_str()),
            None => {
                let mut f = String::new();
                f.append("file_");
                f.append(fname.as_str());
                proof {
                    reveal_strlit("file_");
                    assert("file_"@ =~= file_prefix());
                }
                path_join(ctx.workdir.as_str(), f.as_str())
            },
        };
        let variable_name = match &self.variable {
            Some(v) => copy_string(v.as_str()),
            None => {
                let app = to_uppercase(to_snake_case(ctx.app_name.as_str()).as_str());
                let hash = to_uppercase(to_snake_case(fname.as_str()).as_str());
                let mut n = String::new();
                n.append("NOVOPS_");
                n.append(app.as_str());
                n.append("_FILE_");
                n.append(hash.as_str());
                n
            },
        };
        let value = copy_string(dest.as_str());
        Ok(
            FileOutput {
                dest,
                symlink: crate::export::copy_opt_string(&self.symlink),
                variable: VariableOutput { name: variable_name, value, quote_method: None },
                content,
            },
        )
    }
}

/// Two file inputs without `dest`, with the same content, loaded in the same working
/// directory, are written to the same file: the file name depends on the content alone.
pub proof fn lemma_same_content_same_file(a: FileInput, b: FileInput, workdir: Seq<char>, content: Seq<u8>)
    requires
        a.dest is None,
        b.dest is None,
    ensures
        a.dest_spec(workdir, content) == b.dest_spec(workdir, content),
{
}

/// A file input is refused for want of a target exactly when it sets none of `symlink`,
/// `variable` and `dest`: any one of them, a symlink alone included, is target enough.
pub proof fn lemma_target_any_of_three(f: FileInput)
    ensures
        !f.has_target() <==> (f.symlink is None && f.variable is None && f.dest is None),
        f.symlink is Some ==> f.has_target(),
        f.variable is Some ==> f.has_target(),
        f.dest is Some ==> f.has_target(),
{
}

impl ResolveTo<FileOutput> for FileInput {
    /// The file, when its content needs no service; an error first of all when the input
    /// names none of `symlink`, `variable` or `dest`.
    fn resolve_offline(&self, ctx: &NovopsContext) -> (r: Option<Result<FileOutput, NovopsError>>)
        ensures
            !self.has_target() ==> r == Some(Err::<FileOutput, NovopsError>(NovopsError::FileInputWithoutTarget)),
            self.has_target() ==> match self.content.offline_spec(ctx.dry_run) {
                None => r is None,
                Some(b) => r matches Some(Ok(o)) && o.content@ == b && o.dest@ == self.dest_spec(ctx.workdir@, b)
                    && o.symlink == self.symlink && o.variable.name@ == self.variable_name_spec(ctx.app_name@, b)
                    && o.variable.value@ == o.dest@ && o.variable.quote_method is None,
            },
            self.symlink is Some ==> match r {
                Some(Ok(o)) => o.symlink == self.symlink,
                Some(Err(e)) => e != NovopsError::FileInputWithoutTarget,
                None => true,
            },
    {
        if let Err(e) = self.check_target() {
            return Some(Err(e));
        }
        match self.content.resolve_offline(ctx) {
            Some(Ok(b)) => Some(self.output_for(ctx, b)),
            Some(Err(e)) => Some(Err(e)),
            None => None,
        }
    }
}

/// The fixed words this module writes and matches, spelled out as text.
pub proof fn lemma_files_words()
    ensures
        file_prefix() == "file_"@,
{
    reveal_strlit("file_");
    assert(file_prefix() =~= "file_"@);
}

} // verus!
