use vstd::prelude::*;
use crate::commands::{
    is_begin_compute, is_dispatch, lemma_occurrences_add, lemma_occurrences_none,
    lemma_occurrences_single, occurrences, Command,
};
use vstd::string::StrSliceExecFns;

verus! {

/// Why a compute shader unit could not be finalized.
#[derive(Clone, Copy, Debug, PartialEq, Eq, Structural)]
pub enum ShaderError {
    MissingModule,
    MissingEntryPoint,
}

/// One user compute kernel: its shader source and entry point, the number of
/// resource groups bound to it (at indices `0..bind_groups`), and its fixed
/// workgroup counts.
pub struct Shader {
    module: String,
    entry_point: String,
    bind_groups: u32,
    workgroups: (u32, u32, u32),
}

impl Shader {
    pub closed spec fn module_spec(&self) -> Seq<char> {
        self.module@
    }

    pub closed spec fn entry_point_spec(&self) -> Seq<char> {
        self.entry_point@
    }

    pub closed spec fn bind_groups_spec(&self) -> u32 {
        self.bind_groups
    }

    pub closed spec fn workgroups_spec(&self) -> (u32, u32, u32) {
        self.workgroups
    }

    /// Finalizes a unit; a shader module and an entry point are required.
    pub fn new(module: String, entry_point: String, bind_groups: u32, workgroups: (u32, u32, u32)) -> (r: Result<Self, ShaderError>)
        ensures
            module@.len() == 0 ==> r == Err::<Self, ShaderError>(ShaderError::MissingModule),
            module@.len() > 0 && entry_point@.len() == 0 ==> r == Err::<Self, ShaderError>(ShaderError::MissingEntryPoint),
            module@.len() > 0 && entry_point@.len() > 0 ==> (r matches Ok(s) && s.module_spec() == module@
                && s.entry_point_spec() == entry_point@ && s.bind_groups_spec() == bind_groups
                && s.workgroups_spec() == workgroups),
    {
        if module.as_str().unicode_len() == 0 {
            return Err(ShaderError::MissingModule);
        }
        if entry_point.as_str().unicode_len() == 0 {
            return Err(ShaderError::MissingEntryPoint);
        }
        Ok(Shader { module, entry_point, bind_groups, workgroups })
    }

    pub fn module(&self) -> (r: &str)
        ensures
            r@ == self.module_spec(),
    {
        self.module.as_str()
    }

    pub fn entry_point(&self) -> (r: &str)
        ensures
            r@ == self.entry_point_spec(),
    {
        self.entry_point.as_str()
    }

    pub fn bind_groups(&self) -> (r: u32)
        ensures
            r == self.bind_groups_spec(),
    {
        self.bind_groups
    }

    pub fn workgroups(&self) -> (r: (u32, u32, u32))
        ensures
            r == self.workgroups_spec(),
    {
        self.workgroups
    }
}

/// The commands that run unit `unit`: its pipeline bind, one bind per
/// resource group in index order, then its dispatch.
pub open spec fn unit_commands(unit: int, s: Shader) -> Seq<Command> {
    seq![Command::SetComputePipeline { unit: unit as usize }]
        + Seq::new(s.bind_groups_spec() as nat, |g: int| Command::SetComputeBindGroup { unit: unit as usize, group: g as u32 })
        + seq![Command::DispatchWorkgroups {
            x: s.workgroups_spec().0,
            y: s.workgroups_spec().1,
            z: s.workgroups_spec().2,
        }]
}

/// The commands of all units in order, the first unit first.
pub open spec fn units_commands(units: Seq<Shader>) -> Seq<Command>
    decreases units.len(),
{
    if units.len() == 0 {
        Seq::empty()
    } else {
        units_commands(units.drop_last()) + unit_commands(units.len() - 1, units.last())
    }
}

/// The frame's compute pass over a shader set.
pub open spec fn compute_pass_commands(units: Seq<Shader>) -> Seq<Command> {
    seq![Command::BeginComputePass] + units_commands(units) + seq![Command::EndComputePass]
}

proof fn lemma_unit_counts(unit: int, s: Shader)
    ensures
        occurrences(unit_commands(unit, s), |c: Command| is_dispatch(c)) == 1,
        occurrences(unit_commands(unit, s), |c: Command| is_begin_compute(c)) == 0,
{
    let first = seq![Command::SetComputePipeline { unit: unit as usize }];
    let binds = Seq::new(s.bind_groups_spec() as nat, |g: int| Command::SetComputeBindGroup { unit: unit as usize, group: g as u32 });
    let last = seq![Command::DispatchWorkgroups {
        x: s.workgroups_spec().0,
        y: s.workgroups_spec().1,
        z: s.workgroups_spec().2,
    }];
    let d = |c: Command| is_dispatch(c);
    let b = |c: Command| is_begin_compute(c);
    lemma_occurrences_add(first + binds, last, d);
    lemma_occurrences_add(first, binds, d);
    lemma_occurrences_add(first + binds, last, b);
    lemma_occurrences_add(first, binds, b);
    lemma_occurrences_single(first[0], d);
    lemma_occurrences_single(first[0], b);
    lemma_occurrences_single(last[0], d);
    lemma_occurrences_single(last[0], b);
    assert(first =~= seq![first[0]]);
    assert(last =~= seq![last[0]]);
    lemma_occurrences_none(binds, d);
    lemma_occurrences_none(binds, b);
}

proof fn lemma_units_counts(units: Seq<Shader>)
    ensures
        occurrences(units_commands(units), |c: Command| is_dispatch(c)) == units.len(),
        occurrences(units_commands(units), |c: Command| is_begin_compute(c)) == 0,
    decreases units.len(),
{
    let d = |c: Command| is_dispatch(c);
    let b = |c: Command| is_begin_compute(c);
    if units.len() == 0 {
        lemma_occurrences_none(units_commands(units), d);
        lemma_occurrences_none(units_commands(units), b);
    } else {
        let rest = units_commands(units.drop_last());
        let u = unit_commands(units.len() - 1, units.last());
        lemma_units_counts(units.drop_last());
        lemma_unit_counts(units.len() - 1, units.last());
        lemma_occurrences_add(rest, u, d);
        lemma_occurrences_add(rest, u, b);
    }
}

/// Units' commands hold none that a predicate picks when it picks no
/// pipeline bind, resource-group bind or dispatch.
pub proof fn lemma_units_commands_none(units: Seq<Shader>, p: spec_fn(Command) -> bool)
    requires
        forall|c: Command| #[trigger] p(c) ==> !(c is SetComputePipeline || c is SetComputeBindGroup
            || c is DispatchWorkgroups),
    ensures
        occurrences(units_commands(units), p) == 0,
    decreases units.len(),
{
    if units.len() > 0 {
        let u = unit_commands(units.len() - 1, units.last());
        lemma_units_commands_none(units.drop_last(), p);
        assert forall|i: int| 0 <= i < u.len() implies !p(#[trigger] u[i]) by {
            assert(u[i] is SetComputePipeline || u[i] is SetComputeBindGroup || u[i] is DispatchWorkgroups);
        }
        lemma_occurrences_none(u, p);
        lemma_occurrences_add(units_commands(units.drop_last()), u, p);
    }
}

/// A shader set of N units runs in exactly one compute pass, opened first and
/// closed last, that holds exactly N dispatches; unit `i`'s commands are its
/// pipeline bind, its resource-group binds in index order and its dispatch,
/// and the units follow one another in insertion order.
pub proof fn compute_pass_shape(units: Seq<Shader>)
    ensures
        occurrences(compute_pass_commands(units), |c: Command| is_begin_compute(c)) == 1,
        occurrences(compute_pass_commands(units), |c: Command| is_dispatch(c)) == units.len(),
        compute_pass_commands(units).first() == Command::BeginComputePass,
        compute_pass_commands(units).last() == Command::EndComputePass,
        units.len() > 0 ==> units_commands(units) == units_commands(units.drop_last())
            + unit_commands(units.len() - 1, units.last()),
{
    let d = |c: Command| is_dispatch(c);
    let b = |c: Command| is_begin_compute(c);
    let open = seq![Command::BeginComputePass];
    let close = seq![Command::EndComputePass];
    let body = units_commands(units);
    lemma_units_counts(units);
    lemma_occurrences_add(open + body, close, d);
    lemma_occurrences_add(open, body, d);
    lemma_occurrences_add(open + body, close, b);
    lemma_occurrences_add(open, body, b);
    lemma_occurrences_single(Command::BeginComputePass, d);
    lemma_occurrences_single(Command::BeginComputePass, b);
    lemma_occurrences_single(Command::EndComputePass, d);
    lemma_occurrences_single(Command::EndComputePass, b);
}

/// Accumulates compute shader units in execution order.
pub struct UserShadersBuilder {
    shaders: Vec<Shader>,
}

impl UserShadersBuilder {
    pub closed spec fn shaders_spec(&self) -> Seq<Shader> {
        self.shaders@
    }

    pub fn new() -> (r: Self)
        ensures
            r.shaders_spec() == Seq::<Shader>::empty(),
    {
        UserShadersBuilder { shaders: Vec::new() }
    }

    /// Appends a unit after those already added.
    pub fn with_shader(&mut self, shader: Shader) -> (r: &mut Self)
        ensures
            r.shaders_spec() == old(self).shaders_spec().push(shader),
            *final(self) == *final(r),
    {
        self.shaders.push(shader);
        self
    }

    /// Finalizes the set; an empty builder gives an empty set.
    pub fn build(self) -> (r: UserShaders)
        ensures
            r.shaders_spec() == self.shaders_spec(),
    {
        UserShaders { shaders: self.shaders }
    }
}

/// An immutable, ordered set of compute shader units.
pub struct UserShaders {
    shaders: Vec<Shader>,
}

impl UserShaders {
    pub closed spec fn shaders_spec(&self) -> Seq<Shader> {
        self.shaders@
    }

    pub fn len(&self) -> (r: usize)
        ensures
            r == self.shaders_spec().len(),
    {
        self.shaders.len()
    }

    pub fn shader(&self, i: usize) -> (r: &Shader)
        requires
            i < self.shaders_spec().len(),
        ensures
            *r == self.shaders_spec()[i as int],
    {
        &self.shaders[i]
    }

    /// Records one compute pass that runs every unit in order.
    pub fn execute(&self, commands: &mut Vec<Command>)
        ensures
            final(commands)@ == old(commands)@ + compute_pass_commands(self.shaders_spec()),
    {
        commands.push(Command::BeginComputePass);
        let ghost start = old(commands)@ + seq![Command::BeginComputePass];
        let mut i: usize = 0;
        while i < self.shaders.len()
            invariant
                0 <= i <= self.shaders@.len(),
                commands@ == start + units_commands(self.shaders@.take(i as int)),
            decreases self.shaders@.len() - i,
        {
            let shader = &self.shaders[i];
            let ghost before = commands@;
            commands.push(Command::SetComputePipeline { unit: i });
            let mut g: u32 = 0;
            while g < shader.bind_groups
                invariant
                    0 <= g <= shader.bind_groups,
                    commands@ == before + seq![Command::SetComputePipeline { unit: i }]
                        + Seq::new(g as nat, |k: int| Command::SetComputeBindGroup { unit: i, group: k as u32 }),
                decreases shader.bind_groups - g,
            {
                commands.push(Command::SetComputeBindGroup { unit: i, group: g });
                g = g + 1;
                assert(commands@ =~= before + seq![Command::SetComputePipeline { unit: i }]
                    + Seq::new(g as nat, |k: int| Command::SetComputeBindGroup { unit: i, group: k as u32 }));
            }
            let (x, y, z) = shader.workgroups;
            commands.push(Command::DispatchWorkgroups { x, y, z });
            let ghost taken = self.shaders@.take(i + 1);
            assert(taken.drop_last() =~= self.shaders@.take(i as int));
            assert(commands@ =~= before + unit_commands(i as int, *shader));
            i = i + 1;
        }
        assert(self.shaders@.take(i as int) =~= self.shaders@);
        commands.push(Command::EndComputePass);
    }
}

} // verus!
