use vstd::prelude::*;

verus! {

/// One executed instruction: where it stood and what it was.
#[derive(Debug, Clone)]
pub struct Step {
    pub pc: usize,
    pub opcode: String,
}

/// The value of a trace record.
pub struct StepView {
    pub pc: usize,
    pub opcode: Seq<char>,
}

impl View for Step {
    type V = StepView;

    open spec fn view(&self) -> StepView {
        StepView { pc: self.pc, opcode: self.opcode@ }
    }
}

/// The record of executed instructions, in execution order.
#[derive(Debug, Clone)]
pub struct Trace {
    pub steps: Vec<Step>,
}

impl View for Trace {
    type V = Seq<StepView>;

    open spec fn view(&self) -> Seq<StepView> {
        self.steps@.map_values(|s: Step| s@)
    }
}

impl Default for Trace {
    fn default() -> (r: Trace)
        ensures
            r@ == Seq::<StepView>::empty(),
    {
        let r = Trace { steps: Vec::new() };
        assert(r@ =~= Seq::<StepView>::empty());
        r
    }
}

impl Trace {
    /// A separate trace with the same records.
    pub fn duplicate(&self) -> (r: Trace)
        ensures
            r@ == self@,
    {
        let mut steps: Vec<Step> = Vec::new();
        let mut i: usize = 0;
        while i < self.steps.len()
            invariant
                i <= self.steps@.len(),
                steps@.map_values(|s: Step| s@) == self@.subrange(0, i as int),
            decreases self.steps@.len() - i,
        {
            let s = Step { pc: self.steps[i].pc, opcode: self.steps[i].opcode.clone() };
            let ghost prev = steps@;
            assert(s@ == self@[i as int]);
            steps.push(s);
            assert(steps@ == prev.push(s));
            assert(steps@.map_values(|s: Step| s@) =~= prev.map_values(|s: Step| s@).push(s@));
            i = i + 1;
            assert(steps@.map_values(|s: Step| s@) =~= self@.subrange(0, i as int));
        }
        assert(self@.subrange(0, i as int) =~= self@);
        Trace { steps }
    }
}

} // verus!
