//! The task matrix of a run.
//!
//! A run's configuration lists scale percentages and format identifiers;
//! their Cartesian product, scale order outer and format order inner, is
//! the ordered list of encode operations applied to every input file. The
//! matrix is built once per run and iterated per file.

use vstd::prelude::*;

verus! {

/// One encode instruction: resize to `scale` percent, write as `format`.
#[derive(Clone, Debug)]
pub struct ScaleFormatTask {
    pub scale: u32,
    pub format: String,
}

/// The ordered list of tasks shared by all input files of a run.
#[derive(Clone, Debug)]
pub struct TaskMatrix {
    pub tasks: Vec<ScaleFormatTask>,
}

impl TaskMatrix {
    /// Every task's scale lies in 10..=100.
    pub open spec fn scales_in_range(&self) -> bool {
        forall|k: int| 0 <= k < self.tasks@.len() ==> 10 <= #[trigger] self.tasks@[k].scale
            <= 100
    }

    /// Expands scales and formats into their Cartesian product: task
    /// `i * |formats| + j` pairs scale `i` with format `j`.
    pub fn new(scales: &Vec<u32>, formats: &Vec<String>) -> (m: TaskMatrix)
        requires
            forall|i: int| 0 <= i < scales@.len() ==> 10 <= #[trigger] scales@[i] <= 100,
        ensures
            m.tasks@.len() == scales@.len() * formats@.len(),
            forall|k: int| 0 <= k < m.tasks@.len() ==> {
                &&& (#[trigger] m.tasks@[k]).scale == scales@[k / (formats@.len() as int)]
                &&& m.tasks@[k].format@ == formats@[k % (formats@.len() as int)]@
            },
            m.scales_in_range(),
    {
        let nf = formats.len();
        let mut tasks: Vec<ScaleFormatTask> = Vec::new();
        let mut i: usize = 0;
        while i < scales.len()
            invariant
                i <= scales@.len(),
                nf == formats@.len(),
                forall|x: int| 0 <= x < scales@.len() ==> 10 <= #[trigger] scales@[x] <= 100,
                tasks@.len() == i * nf,
                forall|k: int| 0 <= k < tasks@.len() ==> 10 <= (#[trigger] tasks@[k]).scale
                    <= 100,
                forall|k: int| 0 <= k < tasks@.len() ==> {
                    &&& (#[trigger] tasks@[k]).scale == scales@[k / (nf as int)]
                    &&& tasks@[k].format@ == formats@[k % (nf as int)]@
                },
            decreases scales@.len() - i,
        {
            let mut j: usize = 0;
            while j < nf
                invariant
                    i < scales@.len(),
                    j <= nf,
                    nf == formats@.len(),
                    forall|x: int| 0 <= x < scales@.len() ==> 10 <= #[trigger] scales@[x]
                        <= 100,
                    tasks@.len() == i * nf + j,
                    forall|k: int| 0 <= k < tasks@.len() ==> 10 <= (#[trigger] tasks@[k]).scale
                        <= 100,
                    forall|k: int| 0 <= k < tasks@.len() ==> {
                        &&& (#[trigger] tasks@[k]).scale == scales@[k / (nf as int)]
                        &&& tasks@[k].format@ == formats@[k % (nf as int)]@
                    },
                decreases nf - j,
            {
                let ghost prior = tasks@;
                let t = ScaleFormatTask { scale: scales[i], format: formats[j].clone() };
                tasks.push(t);
                proof {
                    let k0 = prior.len() as int;
                    vstd::arithmetic::div_mod::lemma_fundamental_div_mod_converse(
                        k0,
                        nf as int,
                        i as int,
                        j as int,
                    );
                    assert(tasks@[k0].scale == scales@[k0 / (nf as int)]);
                    assert(tasks@[k0].format@ == formats@[k0 % (nf as int)]@);
                    assert(forall|k: int| 0 <= k < k0 ==> tasks@[k] == prior[k]);
                }
                j += 1;
            }
            proof {
                assert((i + 1) * nf == i * nf + nf) by (nonlinear_arith);
            }
            i += 1;
        }
        TaskMatrix { tasks }
    }

    /// The number of tasks, i.e. of outputs owed per successful file.
    pub fn len(&self) -> (n: usize)
        ensures
            n == self.tasks@.len(),
    {
        self.tasks.len()
    }
}

} // verus!
