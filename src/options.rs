use vstd::prelude::*;

verus! {

/// The value that the syscall-name resolver returns for a name it does not know.
pub const RESOLVE_ERROR: i32 = -1;

/// Errors of a benchmark run.
#[derive(Debug, PartialEq, Eq)]
pub enum BenchError {
    /// The syscall name could not be resolved to a number.
    NoSuchSyscall(String),
    /// The iteration count is not a positive integer.
    InvalidIterations(i32),
    /// Creating the filter context failed.
    FilterInit,
    /// Adding the kill rule for this syscall number failed.
    FilterRule(i64),
    /// Loading the filter into the kernel failed.
    FilterLoad,
}

/// The configuration of one benchmark run: how many payload iterations, and
/// which syscall numbers are disallowed.
pub struct BenchOptions {
    iterations: i32,
    disallowed_syscalls: Vec<i64>,
}

/// A syscall number as the resolver reports it for a known name.
pub open spec fn valid_syscall_number(n: int) -> bool {
    i32::MIN <= n <= i32::MAX && n != RESOLVE_ERROR
}

impl BenchOptions {
    pub closed spec fn iterations_spec(&self) -> int {
        self.iterations as int
    }

    /// The disallowed syscall numbers, in the order they were added.
    pub closed spec fn disallowed_spec(&self) -> Seq<i64> {
        self.disallowed_syscalls@
    }

    /// The iteration count is positive, and every disallowed number is one the
    /// resolver could have returned.
    pub open spec fn wf(&self) -> bool {
        &&& self.iterations_spec() > 0
        &&& forall|i: int|
            0 <= i < self.disallowed_spec().len() ==> valid_syscall_number(
                #[trigger] self.disallowed_spec()[i] as int,
            )
    }

    /// Options with the given iteration count and an empty disallow list.
    pub fn new(iterations: i32) -> (r: Self)
        requires
            iterations > 0,
        ensures
            r.wf(),
            r.iterations_spec() == iterations,
            r.disallowed_spec() == Seq::<i64>::empty(),
    {
        BenchOptions { iterations, disallowed_syscalls: Vec::new() }
    }

    pub fn iterations(&self) -> (r: i32)
        ensures
            r == self.iterations_spec(),
    {
        self.iterations
    }

    pub fn disallowed_syscalls(&self) -> (r: &Vec<i64>)
        ensures
            r@ == self.disallowed_spec(),
    {
        &self.disallowed_syscalls
    }

    /// Records the number that the resolver gave for `name`. A number equal to
    /// `RESOLVE_ERROR` means the name is unknown: the options stay as they were
    /// and the error names it.
    pub fn add_disallowed_syscall(&mut self, name: &str, resolved: i32) -> (r: Result<(), BenchError>)
        requires
            old(self).wf(),
        ensures
            final(self).wf(),
            final(self).iterations_spec() == old(self).iterations_spec(),
            resolved == RESOLVE_ERROR ==> (r matches Err(BenchError::NoSuchSyscall(s)) && s@ == name@)
                && final(self).disallowed_spec() == old(self).disallowed_spec(),
            resolved != RESOLVE_ERROR ==> r is Ok && final(self).disallowed_spec()
                == old(self).disallowed_spec().push(resolved as i64),
    {
        if resolved == RESOLVE_ERROR {
            Err(BenchError::NoSuchSyscall(name.to_owned()))
        } else {
            let ghost before = self.disallowed_spec();
            self.disallowed_syscalls.push(resolved as i64);
            assert forall|i: int| 0 <= i < self.disallowed_syscalls@.len() implies valid_syscall_number(
                self.disallowed_syscalls@[i] as int,
            ) by {
                if i < before.len() {
                    assert(self.disallowed_syscalls@[i] == before[i]);
                    assert(valid_syscall_number(before[i] as int));
                }
            }
            Ok(())
        }
    }

    /// Options whose disallow list holds the numbers that the resolver gave for
    /// `names`, `resolved[i]` being the answer for `names[i]`. The first name
    /// the resolver did not know is reported, and no options are built.
    pub fn with_disallowed(iterations: i32, names: &Vec<&str>, resolved: &Vec<i32>) -> (r: Result<
        Self,
        BenchError,
    >)
        requires
            iterations > 0,
            names@.len() == resolved@.len(),
        ensures
            r matches Ok(o) ==> {
                &&& o.wf()
                &&& o.iterations_spec() == iterations
                &&& o.disallowed_spec().len() == resolved@.len()
                &&& forall|i: int| 0 <= i < resolved@.len() ==> #[trigger] resolved@[i] != RESOLVE_ERROR
                &&& forall|i: int|
                    0 <= i < resolved@.len() ==> #[trigger] o.disallowed_spec()[i] == resolved@[i] as i64
            },
            r matches Err(e) ==> exists|k: int|
                0 <= k < resolved@.len() && resolved@[k] == RESOLVE_ERROR && (forall|j: int|
                    0 <= j < k ==> #[trigger] resolved@[j] != RESOLVE_ERROR) && (e matches BenchError::NoSuchSyscall(
                    s,
                ) && s@ == names@[k]@),
    {
        let mut options = BenchOptions::new(iterations);
        let mut i: usize = 0;
        while i < resolved.len()
            invariant
                names@.len() == resolved@.len(),
                0 <= i <= resolved@.len(),
                options.wf(),
                options.iterations_spec() == iterations,
                options.disallowed_spec().len() == i,
                forall|j: int| 0 <= j < i ==> #[trigger] resolved@[j] != RESOLVE_ERROR,
                forall|j: int|
                    0 <= j < i ==> #[trigger] options.disallowed_spec()[j] == resolved@[j] as i64,
            decreases resolved@.len() - i,
        {
            let ghost before = options.disallowed_spec();
            let res = options.add_disallowed_syscall(names[i], resolved[i]);
            if let Err(e) = res {
                assert(resolved@[i as int] == RESOLVE_ERROR);
                return Err(e);
            }
            assert forall|j: int| 0 <= j < i + 1 implies #[trigger] options.disallowed_spec()[j]
                == resolved@[j] as i64 by {
                if j < i {
                    assert(options.disallowed_spec()[j] == before[j]);
                }
            }
            i = i + 1;
        }
        Ok(options)
    }

    /// Whether `id` is one of the disallowed syscall numbers.
    pub fn is_disallowed(&self, id: i64) -> (r: bool)
        ensures
            r == self.disallowed_spec().contains(id),
    {
        let mut i: usize = 0;
        while i < self.disallowed_syscalls.len()
            invariant
                0 <= i <= self.disallowed_syscalls@.len(),
                forall|j: int| 0 <= j < i ==> self.disallowed_syscalls@[j] != id,
            decreases self.disallowed_syscalls@.len() - i,
        {
            if self.disallowed_syscalls[i] == id {
                return true;
            }
            i = i + 1;
        }
        false
    }
}

/// The socket-family syscalls that a benchmarked child may not make.
pub fn disallowed_syscall_names() -> (r: Vec<&'static str>)
    ensures
        r@ == seq!["socket", "connect", "accept", "sendto", "recvfrom", "bind", "listen"],
{
    let r = vec!["socket", "connect", "accept", "sendto", "recvfrom", "bind", "listen"];
    assert(r@ =~= seq!["socket", "connect", "accept", "sendto", "recvfrom", "bind", "listen"]);
    r
}

/// Accepts an iteration count only when it is positive.
pub fn validate_iterations(n: i32) -> (r: Result<i32, BenchError>)
    ensures
        n > 0 ==> r == Ok::<i32, BenchError>(n),
        n <= 0 ==> r == Err::<i32, BenchError>(BenchError::InvalidIterations(n)),
{
    if n > 0 {
        Ok(n)
    } else {
        Err(BenchError::InvalidIterations(n))
    }
}

} // verus!
