use vstd::prelude::*;

use std::sync::{Arc, Mutex};

verus! {

#[verifier::external_type_specification]
#[verifier::external_body]
#[verifier::reject_recursive_types(T)]
pub struct ExMutex<T: ?Sized>(std::sync::Mutex<T>);

/// `std::sync::Mutex::new`: a new mutex that holds `value`, unlocked.
/// What the mutex holds is not stated: its contents are opaque here.
#[verifier::external_body]
fn new_mutex<T>(value: T) -> (m: Mutex<T>) {
    Mutex::new(value)
}

/// `Arc::clone`: another handle to the same shared value.
#[verifier::external_body]
fn share<T>(handle: &Arc<Mutex<T>>) -> (r: Arc<Mutex<T>>)
    ensures
        r == *handle,
{
    Arc::clone(handle)
}

/// A pool of workers, each shared behind its own lock.
#[verifier::reject_recursive_types(T)]
pub struct Threadpool<T> {
    workers: Vec<Arc<Mutex<T>>>,
}

impl<T> View for Threadpool<T> {
    type V = Seq<Arc<Mutex<T>>>;

    closed spec fn view(&self) -> Seq<Arc<Mutex<T>>> {
        self.workers@
    }
}

impl<T> Threadpool<T> {
    /// A pool of `num` workers, the one at index `i` made by `factory(i)`,
    /// in order of index.
    pub fn new<F: Fn(u16) -> T>(num: u16, factory: F) -> (r: Threadpool<T>)
        requires
            forall|i: u16| i < num ==> factory.requires((i,)),
        ensures
            r@.len() == num,
    {
        let mut workers: Vec<Arc<Mutex<T>>> = Vec::new();
        let mut i: u16 = 0;
        while i < num
            invariant
                i <= num,
                workers@.len() == i,
                forall|j: u16| j < num ==> factory.requires((j,)),
            decreases num - i,
        {
            let worker = Arc::new(new_mutex(factory(i)));
            workers.push(worker);
            i = i + 1;
        }
        Threadpool { workers }
    }

    /// A pool with no workers.
    pub fn new_empty() -> (r: Threadpool<T>)
        ensures
            r@.len() == 0,
    {
        Threadpool { workers: Vec::new() }
    }

    /// Another handle to the worker at index `id`, or `None` when the pool
    /// has no such index.
    pub fn get_worker_ref(&self, id: u16) -> (r: Option<Arc<Mutex<T>>>)
        ensures
            (id as int) < self@.len() ==> r == Some(self@[id as int]),
            (id as int) >= self@.len() ==> r is None,
    {
        if id as usize >= self.workers.len() {
            return None;
        }
        let wrkr = share(&self.workers[id as usize]);
        Some(wrkr)
    }

    /// The number of workers in the pool.
    pub fn get_num_workers(&self) -> (n: usize)
        ensures
            n == self@.len(),
    {
        self.workers.len()
    }

    /// Adds a worker at the end of the pool, behind a lock of its own.
    pub fn add_worker(&mut self, worker: T)
        ensures
            final(self)@.len() == old(self)@.len() + 1,
            final(self)@.take(old(self)@.len() as int) == old(self)@,
    {
        let wrkr = Arc::new(new_mutex(worker));
        self.workers.push(wrkr);
    }
}

} // verus!
