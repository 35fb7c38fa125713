//! The environment: ownership of one engine runtime instance, lifecycle
//! decisions, and the registry of user-defined functions.
//!
//! Every operation on an engine instance ends in a raw C call that only
//! the unverified shell may make.  What is decided here, and verified,
//! is everything around that call: which requests are refused before
//! they reach the engine (a registration whose minimum arity exceeds its
//! maximum, a name already taken), how the engine's status codes and
//! flags map to typed errors, what the registry of user-defined
//! functions records, and that the bookkeeping — unique names, the
//! owning flag, the instance handle — is preserved by every step.  The
//! shell performs the engine call between [`Environment::add_udf`] and
//! [`Environment::confirm_udf`], and feeds each call's status into the
//! matching decision method.

use vstd::prelude::*;

use crate::error::ClipsError;
use crate::error::ClipsErrorKind;
use crate::types::spec_format;
use crate::types::Type;

verus! {

/// Scope of an instance save: only local instances, or every visible one.
#[derive(Debug, Clone, Copy, PartialEq, Eq, Structural)]
pub enum SaveScope {
    Local,
    Visible,
}

impl SaveScope {
    /// The numeric code the engine's save call expects for this scope.
    pub fn code(self) -> (c: u32)
        ensures
            self is Local ==> c == 0,
            self is Visible ==> c == 1,
    {
        match self {
            SaveScope::Local => 0,
            SaveScope::Visible => 1,
        }
    }
}

/// A user-defined-function declaration as the engine sees it: the name,
/// the arity bounds, and the already-rendered type-constraint strings.
#[derive(Debug, PartialEq, Eq)]
pub struct UdfDecl {
    /// The name the function is callable under from rule source.
    pub name: String,
    /// The fewest arguments a call may pass.
    pub min_args: u16,
    /// The most arguments a call may pass.
    pub max_args: u16,
    /// The rendered return-type constraint, if one was declared.
    pub return_code: Option<String>,
    /// The rendered argument-type constraints, one per position,
    /// separated by the engine's delimiter.
    pub arg_code: String,
}

/// The argument-type constraint string for a whole argument list: the
/// rendering of each mask, joined with the engine's `;` delimiter.
pub open spec fn spec_arg_codes(ts: Seq<Type>) -> Seq<char>
    decreases ts,
{
    if ts.len() == 0 {
        Seq::<char>::empty()
    } else if ts.len() == 1 {
        spec_format(ts[0].bits)
    } else {
        spec_format(ts[0].bits) + seq![';'] + spec_arg_codes(ts.subrange(1, ts.len() as int))
    }
}

/// Appending one more mask extends the joined rendering by a delimiter
/// (when anything precedes it) and the mask's own rendering.
pub proof fn lemma_arg_codes_push(ts: Seq<Type>, t: Type)
    ensures
        ts.len() == 0 ==> spec_arg_codes(ts.push(t)) == spec_format(t.bits),
        ts.len() > 0 ==> spec_arg_codes(ts.push(t)) == spec_arg_codes(ts) + seq![';'] + spec_format(
            t.bits,
        ),
    decreases ts.len(),
{
    let whole = ts.push(t);
    if ts.len() == 0 {
        assert(whole.len() == 1);
        assert(whole[0] == t);
    } else {
        let tail = ts.subrange(1, ts.len() as int);
        assert(whole.subrange(1, whole.len() as int) =~= tail.push(t));
        lemma_arg_codes_push(tail, t);
        if ts.len() == 1 {
            assert(spec_arg_codes(whole) == spec_format(ts[0].bits) + seq![';'] + spec_format(
                t.bits,
            ));
        } else {
            assert(spec_arg_codes(whole) =~= spec_arg_codes(ts) + seq![';'] + spec_format(t.bits));
        }
    }
}

/// Renders a whole argument-type list to the engine's constraint string.
pub fn encode_arg_types(arg_types: &Vec<Type>) -> (s: String)
    ensures
        s@ == spec_arg_codes(arg_types@),
{
    let mut s = String::new();
    let n = arg_types.len();
    let mut k: usize = 0;
    while k < n
        invariant
            k <= n,
            n == arg_types@.len(),
            s@ == spec_arg_codes(arg_types@.take(k as int)),
        decreases n - k,
    {
        if k > 0 {
            s.append(";");
        }
        let piece = arg_types[k].format();
        s.append(piece.as_str());
        proof {
            reveal_strlit(";");
            lemma_arg_codes_push(arg_types@.take(k as int), arg_types@[k as int]);
            assert(arg_types@.take(k as int).push(arg_types@[k as int]) =~= arg_types@.take(
                k as int + 1,
            ));
            assert(s@ =~= spec_arg_codes(arg_types@.take(k as int + 1)));
        }
        k += 1;
    }
    proof {
        assert(arg_types@.take(n as int) =~= arg_types@);
    }
    s
}

/// The declarations of `s` that are not named `name`, in order.
pub open spec fn remove_named(s: Seq<UdfDecl>, name: Seq<char>) -> Seq<UdfDecl>
    decreases s,
{
    if s.len() == 0 {
        Seq::<UdfDecl>::empty()
    } else if s[0].name@ == name {
        remove_named(s.subrange(1, s.len() as int), name)
    } else {
        seq![s[0]] + remove_named(s.subrange(1, s.len() as int), name)
    }
}

/// Appending one declaration and then removing a name commutes in the
/// expected way.
pub proof fn lemma_remove_named_push(s: Seq<UdfDecl>, d: UdfDecl, name: Seq<char>)
    ensures
        d.name@ == name ==> remove_named(s.push(d), name) == remove_named(s, name),
        d.name@ != name ==> remove_named(s.push(d), name) == remove_named(s, name).push(d),
    decreases s.len(),
{
    let whole = s.push(d);
    if s.len() == 0 {
        assert(whole.len() == 1);
        assert(whole[0] == d);
        assert(whole.subrange(1, 1) =~= Seq::<UdfDecl>::empty());
        assert(remove_named(Seq::<UdfDecl>::empty(), name) =~= Seq::<UdfDecl>::empty());
        assert(remove_named(s, name) =~= Seq::<UdfDecl>::empty());
        if d.name@ != name {
            assert(remove_named(whole, name) =~= remove_named(s, name).push(d));
        } else {
            assert(remove_named(whole, name) =~= remove_named(s, name));
        }
    } else {
        assert(whole.subrange(1, whole.len() as int) =~= s.subrange(1, s.len() as int).push(d));
        lemma_remove_named_push(s.subrange(1, s.len() as int), d, name);
        if d.name@ != name {
            if s[0].name@ == name {
                assert(remove_named(whole, name) =~= remove_named(s, name).push(d));
            } else {
                assert(remove_named(whole, name) =~= remove_named(s, name).push(d));
            }
        } else {
            assert(remove_named(whole, name) =~= remove_named(s, name));
        }
    }
}

/// The handle to one engine runtime instance, with the bridge's own
/// bookkeeping: whether this handle owns the instance (and must be the
/// one to destroy it), and which user-defined functions the host has
/// registered in it.
///
/// An owning handle comes from [`create_environment`]; a non-owning view
/// is built with [`Environment::from_ptr`] around the raw pointer the
/// engine passes to a callback, and must never outlive that callback.
#[derive(Debug)]
pub struct Environment {
    raw: u64,
    cleanup: bool,
    udfs: Vec<UdfDecl>,
}

impl Environment {
    /// The engine instance this handle stands for, as an opaque handle.
    pub closed spec fn raw_handle(&self) -> u64 {
        self.raw
    }

    /// Whether this handle owns the instance and destroys it on release.
    pub closed spec fn owns_engine(&self) -> bool {
        self.cleanup
    }

    /// The registered user-defined-function declarations, in
    /// registration order.
    pub closed spec fn registry(&self) -> Seq<UdfDecl> {
        self.udfs@
    }

    /// Whether some function is registered under `name`.
    pub open spec fn is_registered(&self, name: Seq<char>) -> bool {
        exists|i: int|
            0 <= i < self.registry().len() && (#[trigger] self.registry()[i]).name@ == name
    }

    /// Well-formedness: a live instance handle, and registered names
    /// pairwise distinct.
    pub open spec fn wf(&self) -> bool {
        &&& self.raw_handle() != 0
        &&& forall|i: int, j: int|
            0 <= i < j < self.registry().len() ==> (#[trigger] self.registry()[i]).name@ != (
            #[trigger] self.registry()[j]).name@
    }

    /// A non-owning view around a raw instance handle the engine passed
    /// to a callback.  It never destroys the instance, and it starts
    /// with an empty registry of its own: registrations made through
    /// the owning handle live in the engine, not in this view.
    pub fn from_ptr(raw: u64) -> (env: Environment)
        requires
            raw != 0,
        ensures
            env.wf(),
            !env.owns_engine(),
            env.raw_handle() == raw,
            env.registry() == Seq::<UdfDecl>::empty(),
    {
        Environment { raw, cleanup: false, udfs: Vec::new() }
    }

    /// The instance handle, for the shell to address the engine with.
    pub fn raw(&self) -> (r: u64)
        ensures
            r == self.raw_handle(),
    {
        self.raw
    }

    /// Whether this handle is the owning one.
    pub fn owns(&self) -> (r: bool)
        ensures
            r == self.owns_engine(),
    {
        self.cleanup
    }

    /// How many user-defined functions are registered.
    pub fn udf_count(&self) -> (n: usize)
        ensures
            n == self.registry().len(),
    {
        self.udfs.len()
    }

    /// The declaration at position `k` of the registry, in
    /// registration order.
    pub fn udf_at(&self, k: usize) -> (d: &UdfDecl)
        requires
            k < self.registry().len(),
        ensures
            *d == self.registry()[k as int],
    {
        &self.udfs[k]
    }

    /// Decides the outcome of a clear: `engine_ok` is the flag the
    /// engine's clear call returned.  Clearing the engine's constructs
    /// does not unregister the host's user-defined functions: the
    /// registry is deliberately kept.
    pub fn clear(&mut self, engine_ok: bool) -> (r: Result<(), ClipsError>)
        ensures
            *final(self) == *old(self),
            engine_ok ==> r is Ok,
            !engine_ok ==> (r matches Err(e) && e.kind is ClearError),
    {
        if engine_ok {
            Ok(())
        } else {
            Err(ClipsError { kind: ClipsErrorKind::ClearError })
        }
    }

    /// Decides the outcome of loading rule source given as a string:
    /// `engine_ok` is the flag the engine's load-from-string call
    /// returned.  On failure the rejected source is carried in the
    /// error.
    pub fn load_from_str(&mut self, source: &str, engine_ok: bool) -> (r: Result<(), ClipsError>)
        ensures
            *final(self) == *old(self),
            engine_ok ==> r is Ok,
            !engine_ok ==> (r matches Err(e) && e.kind matches ClipsErrorKind::LoadFromStringError(
                s,
            ) && s@ == source@),
    {
        if engine_ok {
            Ok(())
        } else {
            Err(ClipsError { kind: ClipsErrorKind::LoadFromStringError(source.to_owned()) })
        }
    }

    /// Decides the outcome of loading a rule file: `code` is the status
    /// the engine's load call returned — no error, could not open the
    /// file, or could not parse it.  Any other status would be an
    /// engine/bridge mismatch and is refused by contract.
    pub fn load(&mut self, path: &str, code: u32) -> (r: Result<(), ClipsError>)
        requires
            code <= 2,
        ensures
            *final(self) == *old(self),
            code == 0 ==> r is Ok,
            code == 1 ==> (r matches Err(e) && e.kind matches ClipsErrorKind::LoadOpenFileError(p)
                && p@ == path@),
            code == 2 ==> (r matches Err(e) && e.kind matches ClipsErrorKind::LoadParsingError(p)
                && p@ == path@),
    {
        if code == 0 {
            Ok(())
        } else if code == 1 {
            Err(ClipsError { kind: ClipsErrorKind::LoadOpenFileError(path.to_owned()) })
        } else {
            Err(ClipsError { kind: ClipsErrorKind::LoadParsingError(path.to_owned()) })
        }
    }

    /// Decides the outcome of batch-executing a command file:
    /// `engine_ok` is the flag the engine's batch call returned.
    pub fn batch_star(&mut self, filename: &str, engine_ok: bool) -> (r: Result<(), ClipsError>)
        ensures
            *final(self) == *old(self),
            engine_ok ==> r is Ok,
            !engine_ok ==> (r matches Err(e) && e.kind matches ClipsErrorKind::BatchStarError(f)
                && f@ == filename@),
    {
        if engine_ok {
            Ok(())
        } else {
            Err(ClipsError { kind: ClipsErrorKind::BatchStarError(filename.to_owned()) })
        }
    }

    /// Whether some function is registered under `name`.
    pub fn lookup_udf(&self, name: &str) -> (r: bool)
        ensures
            r == self.is_registered(name@),
    {
        let needle = name.to_owned();
        let n = self.udfs.len();
        let mut k: usize = 0;
        while k < n
            invariant
                k <= n,
                n == self.udfs@.len(),
                needle@ == name@,
                forall|j: int| 0 <= j < k ==> (#[trigger] self.udfs@[j]).name@ != name@,
            decreases n - k,
        {
            if self.udfs[k].name == needle {
                return true;
            }
            k += 1;
        }
        false
    }

    /// Validates a registration request and renders it into the
    /// declaration the engine's register call takes.
    ///
    /// Refused before anything reaches the engine: a minimum arity above
    /// the maximum, and a name the registry already holds.  On success
    /// the declaration carries the name, the arity bounds unchanged, the
    /// rendered return-type constraint (exactly when one was asked for),
    /// and the rendered, delimiter-joined argument-type constraints.
    /// The registry itself is untouched until [`Environment::confirm_udf`]
    /// hears the engine's answer.
    pub fn add_udf(
        &self,
        name: &str,
        return_types: Option<Type>,
        min_args: u16,
        max_args: u16,
        arg_types: &Vec<Type>,
    ) -> (r: Result<UdfDecl, ClipsError>)
        ensures
            min_args > max_args ==> (r matches Err(e)
                && e.kind matches ClipsErrorKind::AddUDFMinExceedsMaxError(n) && n@ == name@),
            min_args <= max_args && self.is_registered(name@) ==> (r matches Err(e)
                && e.kind matches ClipsErrorKind::AddUDFFunctionNameInUseError(n) && n@ == name@),
            min_args <= max_args && !self.is_registered(name@) ==> (r matches Ok(decl) && {
                &&& decl.name@ == name@
                &&& decl.min_args == min_args
                &&& decl.max_args == max_args
                &&& (match decl.return_code {
                    Some(code) => (return_types matches Some(t) && code@ == spec_format(t.bits)),
                    None => return_types is None,
                })
                &&& decl.arg_code@ == spec_arg_codes(arg_types@)
            }),
    {
        if min_args > max_args {
            return Err(
                ClipsError { kind: ClipsErrorKind::AddUDFMinExceedsMaxError(name.to_owned()) },
            );
        }
        if self.lookup_udf(name) {
            return Err(
                ClipsError { kind: ClipsErrorKind::AddUDFFunctionNameInUseError(name.to_owned()) },
            );
        }
        let return_code = match return_types {
            Some(t) => Some(t.format()),
            None => None,
        };
        let arg_code = encode_arg_types(arg_types);
        Ok(UdfDecl { name: name.to_owned(), min_args, max_args, return_code, arg_code })
    }

    /// Records the engine's answer to a registration: `code` is the
    /// status the engine's register call returned.  Success appends the
    /// declaration to the registry; every refusal maps to its own error
    /// kind and leaves the registry untouched.  A status outside the
    /// engine's documented enumeration would be an engine/bridge
    /// mismatch and is refused by contract.
    pub fn confirm_udf(&mut self, decl: UdfDecl, code: u32) -> (r: Result<(), ClipsError>)
        requires
            old(self).wf(),
            !old(self).is_registered(decl.name@),
            code <= 4,
        ensures
            final(self).raw_handle() == old(self).raw_handle(),
            final(self).owns_engine() == old(self).owns_engine(),
            final(self).wf(),
            code == 0 ==> r is Ok && final(self).registry() == old(self).registry().push(decl),
            code != 0 ==> *final(self) == *old(self),
            code == 1 ==> (r matches Err(e)
                && e.kind matches ClipsErrorKind::AddUDFMinExceedsMaxError(n) && n@ == decl.name@),
            code == 2 ==> (r matches Err(e)
                && e.kind matches ClipsErrorKind::AddUDFFunctionNameInUseError(n) && n@
                == decl.name@),
            code == 3 ==> (r matches Err(e)
                && e.kind matches ClipsErrorKind::AddUDFInvalidArgumentTypeError(n) && n@
                == decl.name@),
            code == 4 ==> (r matches Err(e)
                && e.kind matches ClipsErrorKind::AddUDFInvalidReturnTypeError(n) && n@
                == decl.name@),
    {
        if code == 0 {
            proof {
                assert forall|i: int, j: int|
                    0 <= i < j < self.udfs@.len() + 1 implies (#[trigger] self.udfs@.push(decl)[i]).name@
                    != (#[trigger] self.udfs@.push(decl)[j]).name@ by {
                    if j < self.udfs@.len() {
                    } else {
                        assert(self.udfs@.push(decl)[j] == decl);
                        assert(!old(self).is_registered(decl.name@));
                        assert(self.udfs@[i].name@ != decl.name@);
                    }
                }
            }
            self.udfs.push(decl);
            Ok(())
        } else if code == 1 {
            let name = decl.name;
            Err(ClipsError { kind: ClipsErrorKind::AddUDFMinExceedsMaxError(name) })
        } else if code == 2 {
            let name = decl.name;
            Err(ClipsError { kind: ClipsErrorKind::AddUDFFunctionNameInUseError(name) })
        } else if code == 3 {
            let name = decl.name;
            Err(ClipsError { kind: ClipsErrorKind::AddUDFInvalidArgumentTypeError(name) })
        } else {
            let name = decl.name;
            Err(ClipsError { kind: ClipsErrorKind::AddUDFInvalidReturnTypeError(name) })
        }
    }

    /// Decides the outcome of removing a user-defined function:
    /// `engine_ok` is the flag the engine's remove call returned.  On
    /// success every declaration under that name leaves the registry —
    /// invalidating what was recorded for it — and the others keep
    /// their order; on failure nothing changes.
    pub fn remove_udf(&mut self, name: &str, engine_ok: bool) -> (r: Result<(), ClipsError>)
        requires
            old(self).wf(),
        ensures
            final(self).raw_handle() == old(self).raw_handle(),
            final(self).owns_engine() == old(self).owns_engine(),
            final(self).wf(),
            engine_ok ==> r is Ok && final(self).registry() == remove_named(
                old(self).registry(),
                name@,
            ),
            !engine_ok ==> *final(self) == *old(self) && (r matches Err(e)
                && e.kind matches ClipsErrorKind::RemoveUDFError(n) && n@ == name@),
    {
        if !engine_ok {
            return Err(ClipsError { kind: ClipsErrorKind::RemoveUDFError(name.to_owned()) });
        }
        let needle = name.to_owned();
        let mut kept: Vec<UdfDecl> = Vec::new();
        let n = self.udfs.len();
        proof {
            assert(self.udfs@.take(0) =~= Seq::<UdfDecl>::empty());
        }
        let mut k: usize = 0;
        while k < n
            invariant
                k <= n,
                n == self.udfs@.len(),
                needle@ == name@,
                *self == *old(self),
                kept@ == remove_named(self.udfs@.take(k as int), name@),
                forall|i: int, j: int|
                    0 <= i < j < self.udfs@.len() ==> (#[trigger] self.udfs@[i]).name@ != (
                    #[trigger] self.udfs@[j]).name@,
            decreases n - k,
        {
            let keep = !(self.udfs[k].name == needle);
            proof {
                lemma_remove_named_push(self.udfs@.take(k as int), self.udfs@[k as int], name@);
                assert(self.udfs@.take(k as int).push(self.udfs@[k as int]) =~= self.udfs@.take(
                    k as int + 1,
                ));
            }
            if keep {
                let decl = self.clone_decl(k);
                kept.push(decl);
            }
            k += 1;
        }
        proof {
            assert(self.udfs@.take(n as int) =~= self.udfs@);
            lemma_remove_named_keeps_distinct(self.udfs@, name@);
        }
        self.udfs = kept;
        Ok(())
    }

    /// A copy of the declaration at `k` in the registry.
    fn clone_decl(&self, k: usize) -> (d: UdfDecl)
        requires
            k < self.registry().len(),
        ensures
            d == self.registry()[k as int],
    {
        let src = &self.udfs[k];
        let return_code = match &src.return_code {
            Some(code) => Some(code.clone()),
            None => None,
        };
        UdfDecl {
            name: src.name.clone(),
            min_args: src.min_args,
            max_args: src.max_args,
            return_code,
            arg_code: src.arg_code.clone(),
        }
    }
}

/// Removal keeps the remaining names pairwise distinct.
pub proof fn lemma_remove_named_keeps_distinct(s: Seq<UdfDecl>, name: Seq<char>)
    requires
        forall|i: int, j: int|
            0 <= i < j < s.len() ==> (#[trigger] s[i]).name@ != (#[trigger] s[j]).name@,
    ensures
        forall|i: int, j: int|
            0 <= i < j < remove_named(s, name).len() ==> (#[trigger] remove_named(s, name)[i]).name@
                != (#[trigger] remove_named(s, name)[j]).name@,
    decreases s.len(),
{
    if s.len() > 0 {
        let tail = s.subrange(1, s.len() as int);
        lemma_remove_named_keeps_distinct(tail, name);
        lemma_remove_named_membership(tail, name);
    }
}

/// Everything the removal keeps was in the input sequence.
pub proof fn lemma_remove_named_membership(s: Seq<UdfDecl>, name: Seq<char>)
    ensures
        forall|i: int|
            0 <= i < remove_named(s, name).len() ==> s.contains(#[trigger] remove_named(s, name)[i]),
    decreases s.len(),
{
    if s.len() > 0 {
        let tail = s.subrange(1, s.len() as int);
        lemma_remove_named_membership(tail, name);
        assert forall|i: int| 0 <= i < remove_named(s, name).len() implies s.contains(
            #[trigger] remove_named(s, name)[i],
        ) by {
            if s[0].name@ == name {
                assert(remove_named(s, name) == remove_named(tail, name));
                assert(remove_named(s, name)[i] == remove_named(tail, name)[i]);
                assert(tail.contains(remove_named(tail, name)[i]));
            } else {
                if i > 0 {
                    assert(remove_named(s, name)[i] == remove_named(tail, name)[i - 1]);
                    assert(tail.contains(remove_named(s, name)[i]));
                }
            }
            assert(forall|x: UdfDecl| tail.contains(x) ==> s.contains(x));
        }
    }
}

/// Builds the owning handle around the instance handle the engine's
/// create call returned, with `0` standing for the null answer of a
/// failed allocation.
pub fn create_environment(raw: u64) -> (r: Result<Environment, ClipsError>)
    ensures
        raw == 0 ==> (r matches Err(e) && e.kind is CreateEnvironmentError),
        raw != 0 ==> (r matches Ok(env) && {
            &&& env.wf()
            &&& env.owns_engine()
            &&& env.raw_handle() == raw
            &&& env.registry() == Seq::<UdfDecl>::empty()
        }),
{
    if raw == 0 {
        Err(ClipsError { kind: ClipsErrorKind::CreateEnvironmentError })
    } else {
        Ok(Environment { raw, cleanup: true, udfs: Vec::new() })
    }
}

} // verus!
