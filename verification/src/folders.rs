//! The three-pool file picker. A draw chooses one of the three configured
//! directories ("true", "maybe", "false" verdicts), a second draw chooses one
//! entry of that directory's listing. Reading the directory itself is I/O and
//! is the caller's job: the caller probes the paths, lists the chosen pool,
//! and hands the plain listing in.

use vstd::prelude::*;

verus! {

/// The three pool directories, one per verdict. Each path was reported to be
/// a directory when the set was built.
pub struct Folders {
    pub true_path: String,
    pub maybe_path: String,
    pub false_path: String,
}

/// Why building a pool set, or drawing from a pool, failed.
#[derive(Debug)]
pub enum FolderError {
    /// The named configured path is not a directory.
    NotADirectory(String),
    /// The named pool directory has no entries to draw from.
    EmptyPool(String),
}

impl FolderError {
    /// A human-readable description of the failure.
    pub fn message(&self) -> (r: String)
        ensures
            self matches FolderError::NotADirectory(p) ==> r@ == "`"@ + p@
                + "` is not a directory"@,
            self matches FolderError::EmptyPool(p) ==> r@ == "`"@ + p@ + "` has no children"@,
    {
        match self {
            FolderError::NotADirectory(p) => String::from_str("`").concat(p.as_str()).concat(
                "` is not a directory",
            ),
            FolderError::EmptyPool(p) => String::from_str("`").concat(p.as_str()).concat(
                "` has no children",
            ),
        }
    }
}

/// Relies on `rand::random`: draws a value of the requested type. Nothing is
/// promised of the value; every caller must cope with every outcome.
pub assume_specification<T>[ rand::random::<T> ]() -> (r: T)
    where
        rand::distributions::Standard: rand::distributions::Distribution<T>,
;

/// Which of the draw values 0 .. n land in bucket `b` under reduction mod 3.
pub open spec fn spec_bucket_count(n: nat, b: int) -> nat
    decreases n,
{
    if n == 0 {
        0
    } else {
        spec_bucket_count((n - 1) as nat, b) + (if (n - 1) % 3 == b {
            1nat
        } else {
            0nat
        })
    }
}

/// Uniformity over pools: among the draw values 0 .. 3k, each of the three
/// buckets is hit exactly k times. A draw that is uniform over its range
/// therefore selects each pool with the same weight, whatever the pools hold.
pub proof fn lemma_bucket_uniform(k: nat, b: int)
    requires
        0 <= b < 3,
    ensures
        spec_bucket_count(3 * k, b) == k,
    decreases k,
{
    if k > 0 {
        let n = 3 * k;
        lemma_bucket_uniform((k - 1) as nat, b);
        assert((n - 1) % 3 == 2) by (nonlinear_arith)
            requires
                k > 0 && n == 3 * k,
        ;
        assert((n - 2) % 3 == 1) by (nonlinear_arith)
            requires
                k > 0 && n == 3 * k,
        ;
        assert((n - 3) % 3 == 0) by (nonlinear_arith)
            requires
                k > 0 && n == 3 * k,
        ;
        assert(spec_bucket_count(n as nat, b) == spec_bucket_count((n - 1) as nat, b) + (if (n - 1)
            % 3 == b {
            1nat
        } else {
            0nat
        }));
        assert(spec_bucket_count((n - 1) as nat, b) == spec_bucket_count((n - 2) as nat, b) + (if (n
            - 2) % 3 == b {
            1nat
        } else {
            0nat
        }));
        assert(spec_bucket_count((n - 2) as nat, b) == spec_bucket_count((n - 3) as nat, b) + (if (n
            - 3) % 3 == b {
            1nat
        } else {
            0nat
        }));
        assert((n - 3) as nat == 3 * ((k - 1) as nat));
    }
}

/// The bucket of one draw: 0 picks the "true" pool, 1 the "maybe" pool, 2 the
/// "false" pool.
pub fn bucket_of_draw(draw: u32) -> (b: u32)
    ensures
        b == draw as int % 3,
        b < 3,
{
    draw % 3
}

impl Folders {
    /// Builds the pool set from the three configured paths. The caller probes
    /// the file system and reports with each path whether it is a directory;
    /// the paths are checked in order and the first non-directory is the
    /// error.
    pub fn new(
        true_path: &String,
        maybe_path: &String,
        false_path: &String,
        true_is_dir: bool,
        maybe_is_dir: bool,
        false_is_dir: bool,
    ) -> (r: Result<Folders, FolderError>)
        ensures
            r is Ok <==> (true_is_dir && maybe_is_dir && false_is_dir),
            r matches Ok(f) ==> f.true_path == true_path && f.maybe_path == maybe_path
                && f.false_path == false_path,
            !true_is_dir ==> (r matches Err(e) && e matches FolderError::NotADirectory(p) && p
                == true_path),
            true_is_dir && !maybe_is_dir ==> (r matches Err(e) && e
                matches FolderError::NotADirectory(p) && p == maybe_path),
            true_is_dir && maybe_is_dir && !false_is_dir ==> (r matches Err(e) && e
                matches FolderError::NotADirectory(p) && p == false_path),
    {
        if !true_is_dir {
            return Err(FolderError::NotADirectory(true_path.clone()));
        }
        if !maybe_is_dir {
            return Err(FolderError::NotADirectory(maybe_path.clone()));
        }
        if !false_is_dir {
            return Err(FolderError::NotADirectory(false_path.clone()));
        }
        Ok(
            Folders {
                true_path: true_path.clone(),
                maybe_path: maybe_path.clone(),
                false_path: false_path.clone(),
            },
        )
    }

    /// The pool that one bucket denotes.
    pub fn pool_for_bucket(&self, b: u32) -> (p: &String)
        requires
            b < 3,
        ensures
            b == 0 ==> p == &self.true_path,
            b == 1 ==> p == &self.maybe_path,
            b == 2 ==> p == &self.false_path,
    {
        if b == 0 {
            &self.true_path
        } else if b == 1 {
            &self.maybe_path
        } else {
            &self.false_path
        }
    }

    /// Draws a verdict at random and returns that verdict's pool. The result
    /// is always one of the three configured directories.
    pub fn choose_pool(&self) -> (p: &String)
        ensures
            p == &self.true_path || p == &self.maybe_path || p == &self.false_path,
    {
        let draw: u32 = rand::random();
        self.pool_for_bucket(bucket_of_draw(draw))
    }

    /// Draws one entry at random from the listing of the chosen pool. An
    /// empty listing is the one failure; otherwise the result is a member of
    /// the listing.
    pub fn pick_random(&self, pool: &String, children: &Vec<String>) -> (r: Result<
        String,
        FolderError,
    >)
        ensures
            r is Ok <==> children@.len() > 0,
            r matches Err(e) ==> (e matches FolderError::EmptyPool(p) && p == pool),
            r matches Ok(picked) ==> exists|i: int|
                0 <= i < children@.len() && picked == children@[i],
    {
        if children.len() == 0 {
            return Err(FolderError::EmptyPool(pool.clone()));
        }
        let draw: usize = rand::random();
        let index = draw % children.len();
        let picked = children[index].clone();
        proof {
            assert(picked == children@[index as int]);
        }
        Ok(picked)
    }
}

} // verus!
