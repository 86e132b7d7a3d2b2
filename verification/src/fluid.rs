use vstd::prelude::*;
use crate::grid::{groups_for, workgroup_count, Extent, DYE_SCALE, SIM_BASE, WORKGROUP};

verus! {

/// One of the solver's storage images. Velocity has three images (the fixed
/// `u_old` of the viscous Jacobi solve plus a read/write pair), pressure and
/// dye two each, divergence one.
#[derive(Clone, Copy, Debug, PartialEq, Eq, Structural)]
pub enum Image {
    Velocity(usize),
    Pressure(usize),
    Divergence,
    Dye(usize),
}

/// A compute pass together with the images bound to its bindings, in binding
/// order. Each stencil pass reads its inputs and writes one output image.
#[derive(Clone, Copy, Debug, PartialEq, Eq, Structural)]
pub enum Pass {
    /// External force `f` on the velocity grid: adds the impulse of the
    /// splat with index `splat` to `velocity` in place.
    SplatVelocity { splat: usize, velocity: Image, dye: Image },
    /// The dye half of a splat, on the dye grid: adds its color to `dye` in
    /// place.
    SplatDye { splat: usize, velocity: Image, dye: Image },
    /// One Jacobi iteration of the viscous solve `(I - ν·dt·∇²)u = u_old`,
    /// reading the iterate `x_in` and writing `x_out`.
    Diffuse { u_old: Image, x_in: Image, x_out: Image },
    /// Divergence `∇·u` of `velocity`, written to `div`.
    Divergence { velocity: Image, div: Image },
    /// One Jacobi iteration of the pressure Poisson solve `∇²p = div`.
    Pressure { p_in: Image, p_out: Image, div: Image },
    /// Subtracts the gradient of `pressure` from `vel_in` into `vel_out`.
    Gradient { vel_in: Image, vel_out: Image, pressure: Image },
    /// Semi-Lagrangian advection of the velocity by itself into `vel_out`.
    AdvectVelocity { vel_in: Image, vel_out: Image, dye_in: Image, dye_out: Image },
    /// Semi-Lagrangian advection of the dye by `vel_in` into `dye_out`.
    AdvectDye { vel_in: Image, vel_out: Image, dye_in: Image, dye_out: Image },
}

/// Workgroup counts of a compute dispatch along x, y and z.
#[derive(Clone, Copy, Debug, PartialEq, Eq, Structural)]
pub struct Groups {
    pub x: u32,
    pub y: u32,
    pub z: u32,
}

/// A compute dispatch of `pass` over a grid of `extent` cells, with the
/// workgroup counts that cover it.
#[derive(Clone, Copy, Debug, PartialEq, Eq, Structural)]
pub struct Dispatch {
    pub pass: Pass,
    pub extent: Extent,
    pub groups: Groups,
}

/// One recorded GPU command of the solver.
#[derive(Clone, Copy, Debug, PartialEq, Eq, Structural)]
pub enum Command {
    /// Clears the image to zero.
    Clear(Image),
    Dispatch(Dispatch),
}

/// The dispatch of `pass` over `extent`, with the least workgroup counts
/// that cover it.
pub open spec fn dispatch_spec(pass: Pass, extent: Extent) -> Command {
    Command::Dispatch(
        Dispatch {
            pass,
            extent,
            groups: Groups {
                x: groups_for(extent.width) as u32,
                y: groups_for(extent.height) as u32,
                z: 1,
            },
        },
    )
}

/// Builds the dispatch of `pass` over `extent`.
pub fn dispatch(pass: Pass, extent: Extent) -> (c: Command)
    ensures
        c == dispatch_spec(pass, extent),
{
    let x = workgroup_count(extent.width);
    let y = workgroup_count(extent.height);
    Command::Dispatch(Dispatch { pass, extent, groups: Groups { x, y, z: 1 } })
}

/// Abstract state of the solver: the grid extents and which image of each
/// ping-pong set currently holds the field.
pub struct FluidState {
    pub sim_size: Extent,
    pub dye_size: Extent,
    pub velocity: nat,
    pub pressure: nat,
    pub dye: nat,
}

impl FluidState {
    /// The current indices name existing images, and the dye grid is
    /// `DYE_SCALE` times finer than the velocity grid in each dimension.
    pub open spec fn wf(self) -> bool {
        &&& self.velocity < 3
        &&& self.pressure < 2
        &&& self.dye < 2
        &&& self.dye_size.width == self.sim_size.width * DYE_SCALE
        &&& self.dye_size.height == self.sim_size.height * DYE_SCALE
    }

    pub open spec fn velocity_image(self) -> Image {
        Image::Velocity(self.velocity as usize)
    }

    /// The velocity image after the current one in the ping-pong cycle.
    pub open spec fn next_velocity_image(self) -> Image {
        Image::Velocity(((self.velocity + 1) % 3) as usize)
    }

    pub open spec fn pressure_image(self) -> Image {
        Image::Pressure(self.pressure as usize)
    }

    pub open spec fn dye_image(self) -> Image {
        Image::Dye(self.dye as usize)
    }

    /// The dye image that is not the current one.
    pub open spec fn other_dye_image(self) -> Image {
        Image::Dye((1 - self.dye) as usize)
    }
}

/// The clears of `record_reset`: every image of the solver, once each.
pub open spec fn reset_commands() -> Seq<Command> {
    seq![
        Command::Clear(Image::Velocity(0)),
        Command::Clear(Image::Velocity(1)),
        Command::Clear(Image::Velocity(2)),
        Command::Clear(Image::Pressure(0)),
        Command::Clear(Image::Pressure(1)),
        Command::Clear(Image::Divergence),
        Command::Clear(Image::Dye(0)),
        Command::Clear(Image::Dye(1)),
    ]
}

/// The velocity half (`dye_half == false`) or the dye half of splat `k`.
pub open spec fn splat_dispatch(s: FluidState, k: nat, dye_half: bool) -> Command {
    if dye_half {
        dispatch_spec(
            Pass::SplatDye { splat: k as usize, velocity: s.velocity_image(), dye: s.dye_image() },
            s.dye_size,
        )
    } else {
        dispatch_spec(
            Pass::SplatVelocity {
                splat: k as usize,
                velocity: s.velocity_image(),
                dye: s.dye_image(),
            },
            s.sim_size,
        )
    }
}

/// The dispatches of splat `k`: velocity over the simulation grid, then dye
/// over the dye grid.
pub open spec fn splat_commands(s: FluidState, k: nat) -> Seq<Command> {
    seq![splat_dispatch(s, k, false), splat_dispatch(s, k, true)]
}

/// The dispatches of splats `0..n`, in order.
pub open spec fn splats_commands(s: FluidState, n: nat) -> Seq<Command> {
    Seq::new(2 * n, |j: int| splat_dispatch(s, (j / 2) as nat, j % 2 == 1))
}

/// Number of Jacobi iterations the viscous solve runs for `iters`: the first
/// iteration is always recorded.
pub open spec fn diffuse_iterations(iters: nat) -> nat {
    if iters == 0 {
        1
    } else {
        iters
    }
}

/// The velocity image that iteration `i` of the viscous solve writes when
/// the solve starts from velocity image `u`: the two images other than `u`,
/// alternately.
pub open spec fn diffuse_target(u: nat, i: int) -> nat {
    if i % 2 == 0 {
        (u + 1) % 3
    } else {
        (u + 2) % 3
    }
}

/// Iteration `i` of the viscous solve started from state `s`.
pub open spec fn diffuse_dispatch(s: FluidState, i: int) -> Command {
    dispatch_spec(
        Pass::Diffuse {
            u_old: s.velocity_image(),
            x_in: if i == 0 {
                s.velocity_image()
            } else {
                Image::Velocity(diffuse_target(s.velocity, i - 1) as usize)
            },
            x_out: Image::Velocity(diffuse_target(s.velocity, i) as usize),
        },
        s.sim_size,
    )
}

pub open spec fn diffuse_commands(s: FluidState, iters: nat) -> Seq<Command> {
    Seq::new(diffuse_iterations(iters), |i: int| diffuse_dispatch(s, i))
}

pub open spec fn after_diffuse(s: FluidState, iters: nat) -> FluidState {
    FluidState { velocity: diffuse_target(s.velocity, diffuse_iterations(iters) - 1), ..s }
}

pub open spec fn divergence_command(s: FluidState) -> Command {
    dispatch_spec(Pass::Divergence { velocity: s.velocity_image(), div: Image::Divergence }, s.sim_size)
}


/// Iteration `i` of the pressure solve started (warm) from state `s`.
pub open spec fn pressure_dispatch(s: FluidState, i: int) -> Command {
    dispatch_spec(
        Pass::Pressure {
            p_in: Image::Pressure(((s.pressure + i) % 2) as usize),
            p_out: Image::Pressure(((s.pressure + i + 1) % 2) as usize),
            div: Image::Divergence,
        },
        s.sim_size,
    )
}

pub open spec fn pressure_commands(s: FluidState, iters: nat) -> Seq<Command> {
    Seq::new(iters, |i: int| pressure_dispatch(s, i))
}

pub open spec fn after_pressure(s: FluidState, iters: nat) -> FluidState {
    FluidState { pressure: (s.pressure + iters) % 2, ..s }
}

pub open spec fn gradient_command(s: FluidState) -> Command {
    dispatch_spec(
        Pass::Gradient {
            vel_in: s.velocity_image(),
            vel_out: s.next_velocity_image(),
            pressure: s.pressure_image(),
        },
        s.sim_size,
    )
}

/// After `record_gradient` or `record_advect_velocity`: the velocity moves to
/// the next image of the cycle.
pub open spec fn after_velocity_pass(s: FluidState) -> FluidState {
    FluidState { velocity: (s.velocity + 1) % 3, ..s }
}

pub open spec fn advect_velocity_command(s: FluidState) -> Command {
    dispatch_spec(
        Pass::AdvectVelocity {
            vel_in: s.velocity_image(),
            vel_out: s.next_velocity_image(),
            dye_in: s.dye_image(),
            dye_out: s.other_dye_image(),
        },
        s.sim_size,
    )
}

pub open spec fn advect_dye_command(s: FluidState) -> Command {
    dispatch_spec(
        Pass::AdvectDye {
            vel_in: s.velocity_image(),
            vel_out: s.next_velocity_image(),
            dye_in: s.dye_image(),
            dye_out: s.other_dye_image(),
        },
        s.dye_size,
    )
}

pub open spec fn after_advect_dye(s: FluidState) -> FluidState {
    FluidState { dye: (1 - s.dye) as nat, ..s }
}

/// Whether a step runs the viscous solve.
pub open spec fn step_diffuses(viscous: bool, diffusion_iters: nat) -> bool {
    viscous && diffusion_iters > 0
}

/// The state after the viscosity stage of a step.
pub open spec fn step_state_diffused(s: FluidState, viscous: bool, diffusion_iters: nat) -> FluidState {
    if step_diffuses(viscous, diffusion_iters) {
        after_diffuse(s, diffusion_iters)
    } else {
        s
    }
}

/// The commands of one full time step: splats, viscosity (when enabled),
/// projection (divergence, pressure, gradient), then advection of velocity
/// and dye.
#[verifier::opaque]
pub open spec fn step_commands(
    s: FluidState,
    n_splats: nat,
    viscous: bool,
    diffusion_iters: nat,
    pressure_iters: nat,
) -> Seq<Command> {
    let s1 = step_state_diffused(s, viscous, diffusion_iters);
    let s2 = after_pressure(s1, pressure_iters);
    let s3 = after_velocity_pass(s2);
    let s4 = after_velocity_pass(s3);
    splats_commands(s, n_splats) + (if step_diffuses(viscous, diffusion_iters) {
        diffuse_commands(s, diffusion_iters)
    } else {
        Seq::empty()
    }) + seq![divergence_command(s1)] + pressure_commands(s1, pressure_iters) + seq![
        gradient_command(s2),
        advect_velocity_command(s3),
        advect_dye_command(s4),
    ]
}

/// The state after one full time step.
pub open spec fn after_step(
    s: FluidState,
    viscous: bool,
    diffusion_iters: nat,
    pressure_iters: nat,
) -> FluidState {
    let s1 = step_state_diffused(s, viscous, diffusion_iters);
    after_advect_dye(after_velocity_pass(after_velocity_pass(after_pressure(s1, pressure_iters))))
}

/// Bookkeeping of the incompressible Navier-Stokes solver: the grid extents
/// and, for each field, which of its ping-pong images holds the current
/// value. Every `record_*` method appends the commands of one solver stage to
/// the caller's command list and advances the bookkeeping as the GPU will.
pub struct FluidSim {
    sim_size: Extent,
    dye_size: Extent,
    vel_cur: usize,
    pressure_cur: usize,
    dye_cur: usize,
}

impl View for FluidSim {
    type V = FluidState;

    closed spec fn view(&self) -> FluidState {
        FluidState {
            sim_size: self.sim_size,
            dye_size: self.dye_size,
            velocity: self.vel_cur as nat,
            pressure: self.pressure_cur as nat,
            dye: self.dye_cur as nat,
        }
    }
}

impl FluidSim {
    #[verifier::type_invariant]
    spec fn inv(self) -> bool {
        self@.wf()
    }

    /// A solver whose velocity/pressure grid is `sim_width` cells wide and
    /// `SIM_BASE` high; the dye grid is `DYE_SCALE` times finer. All current
    /// indices start at the first image.
    pub fn new(sim_width: u32) -> (sim: Self)
        requires
            sim_width * DYE_SCALE <= u32::MAX,
        ensures
            sim@.sim_size == (Extent { width: sim_width, height: SIM_BASE }),
            sim@.dye_size.width == sim_width * DYE_SCALE,
            sim@.dye_size.height == SIM_BASE * DYE_SCALE,
            sim@.velocity == 0,
            sim@.pressure == 0,
            sim@.dye == 0,
            sim@.wf(),
    {
        let sim_size = Extent { width: sim_width, height: SIM_BASE };
        let dye_size = Extent { width: sim_width * DYE_SCALE, height: SIM_BASE * DYE_SCALE };
        FluidSim { sim_size, dye_size, vel_cur: 0, pressure_cur: 0, dye_cur: 0 }
    }

    pub fn sim_size(&self) -> (r: Extent)
        ensures
            r == self@.sim_size,
    {
        self.sim_size
    }

    pub fn dye_size(&self) -> (r: Extent)
        ensures
            r == self@.dye_size,
    {
        self.dye_size
    }

    /// The dye image holding the current frame's colors, for display.
    pub fn dye_view(&self) -> (r: Image)
        ensures
            r == self@.dye_image(),
    {
        Image::Dye(self.dye_cur)
    }

    /// The divergence image, updated by the last `record_divergence` call.
    pub fn div_view(&self) -> (r: Image)
        ensures
            r == Image::Divergence,
    {
        Image::Divergence
    }

    /// Clears every field to zero. All ping-pong images hold zeros
    /// afterwards, so the index bookkeeping stays where it is.
    pub fn record_reset(&self, cmds: &mut Vec<Command>)
        ensures
            final(cmds)@ == old(cmds)@ + reset_commands(),
    {
        cmds.push(Command::Clear(Image::Velocity(0)));
        cmds.push(Command::Clear(Image::Velocity(1)));
        cmds.push(Command::Clear(Image::Velocity(2)));
        cmds.push(Command::Clear(Image::Pressure(0)));
        cmds.push(Command::Clear(Image::Pressure(1)));
        cmds.push(Command::Clear(Image::Divergence));
        cmds.push(Command::Clear(Image::Dye(0)));
        cmds.push(Command::Clear(Image::Dye(1)));
        assert(final(cmds)@ =~= old(cmds)@ + reset_commands());
    }

    /// External force `f`: the impulse and dye of the splat with index
    /// `splat`, applied in place to the current velocity and dye images.
    pub fn record_splat(&self, cmds: &mut Vec<Command>, splat: usize)
        ensures
            final(cmds)@ == old(cmds)@ + splat_commands(self@, splat as nat),
    {
        let velocity = Image::Velocity(self.vel_cur);
        let dye = Image::Dye(self.dye_cur);
        cmds.push(dispatch(Pass::SplatVelocity { splat, velocity, dye }, self.sim_size));
        cmds.push(dispatch(Pass::SplatDye { splat, velocity, dye }, self.dye_size));
        assert(final(cmds)@ =~= old(cmds)@ + splat_commands(self@, splat as nat));
    }

    /// Viscosity `ν∇²u`: `iters` Jacobi iterations of
    /// `(I - ν·dt·∇²)u_new = u_old` (at least one), keeping `u_old` fixed
    /// while the iterate ping-pongs between the two other velocity images;
    /// the last iterate becomes the current velocity.
    pub fn record_diffuse(&mut self, cmds: &mut Vec<Command>, iters: u32)
        ensures
            final(cmds)@ == old(cmds)@ + diffuse_commands(old(self)@, iters as nat),
            final(self)@ == after_diffuse(old(self)@, iters as nat),
            final(self)@.wf(),
    {
        proof { use_type_invariant(&*self); }
        let ghost s = self@;
        let u_old = self.vel_cur;
        let sim_size = self.sim_size;
        let mut x = (u_old + 1) % 3;
        let mut y = (u_old + 2) % 3;

        // The first iteration starts from x⁰ = u_old.
        cmds.push(
            dispatch(
                Pass::Diffuse {
                    u_old: Image::Velocity(u_old),
                    x_in: Image::Velocity(u_old),
                    x_out: Image::Velocity(x),
                },
                sim_size,
            ),
        );
        assert(cmds@ =~= old(cmds)@ + Seq::new(1, |i: int| diffuse_dispatch(s, i)));

        let mut i: u32 = 1;
        while i < iters
            invariant
                1 <= i,
                i <= iters || i == 1,
                s.wf(),
                u_old == s.velocity,
                sim_size == s.sim_size,
                x == diffuse_target(s.velocity, i - 1),
                y == diffuse_target(s.velocity, i as int),
                cmds@ == old(cmds)@ + Seq::new(i as nat, |j: int| diffuse_dispatch(s, j)),
            decreases iters - i,
        {
            cmds.push(
                dispatch(
                    Pass::Diffuse {
                        u_old: Image::Velocity(u_old),
                        x_in: Image::Velocity(x),
                        x_out: Image::Velocity(y),
                    },
                    sim_size,
                ),
            );
            assert(cmds@ =~= old(cmds)@ + Seq::new((i + 1) as nat, |j: int| diffuse_dispatch(s, j)));
            let t = x;
            x = y;
            y = t;
            i = i + 1;
        }
        assert(i == diffuse_iterations(iters as nat));
        self.vel_cur = x;
    }

    /// Pressure Poisson solve `∇²p = ∇·u`: `iters` Jacobi iterations,
    /// warm-started from the current pressure image and ping-ponging between
    /// the two pressure images. With no iterations nothing is recorded and
    /// the pressure stays where it is.
    pub fn record_pressure(&mut self, cmds: &mut Vec<Command>, iters: u32)
        ensures
            final(cmds)@ == old(cmds)@ + pressure_commands(old(self)@, iters as nat),
            final(self)@ == after_pressure(old(self)@, iters as nat),
            final(self)@.wf(),
    {
        proof { use_type_invariant(&*self); }
        let ghost s = self@;
        let sim_size = self.sim_size;
        let n: u32 = iters;
        let mut p = self.pressure_cur;
        let mut i: u32 = 0;
        while i < n
            invariant
                i <= n,
                n == iters,
                s.wf(),
                sim_size == s.sim_size,
                p == (s.pressure + i) % 2,
                cmds@ == old(cmds)@ + Seq::new(i as nat, |j: int| pressure_dispatch(s, j)),
            decreases n - i,
        {
            cmds.push(
                dispatch(
                    Pass::Pressure {
                        p_in: Image::Pressure(p),
                        p_out: Image::Pressure(1 - p),
                        div: Image::Divergence,
                    },
                    sim_size,
                ),
            );
            assert(cmds@ =~= old(cmds)@ + Seq::new((i + 1) as nat, |j: int| pressure_dispatch(s, j)));
            p = 1 - p;
            i = i + 1;
        }
        self.pressure_cur = p;
    }

    /// One full time step of the Navier-Stokes solver: the splats with
    /// indices `0..n_splats` (forces), viscosity when `viscous` and
    /// `diffusion_iters > 0`, projection (divergence, pressure, gradient),
    /// then advection of velocity and dye.
    pub fn record_step(
        &mut self,
        cmds: &mut Vec<Command>,
        n_splats: usize,
        viscous: bool,
        diffusion_iters: u32,
        pressure_iters: u32,
    )
        ensures
            final(cmds)@ == old(cmds)@ + step_commands(
                old(self)@,
                n_splats as nat,
                viscous,
                diffusion_iters as nat,
                pressure_iters as nat,
            ),
            final(self)@ == after_step(
                old(self)@,
                viscous,
                diffusion_iters as nat,
                pressure_iters as nat,
            ),
            final(self)@.wf(),
    {
        let ghost s = self@;
        let ghost start = cmds@;
        let mut k: usize = 0;
        while k < n_splats
            invariant
                k <= n_splats,
                self@ == s,
                cmds@ == start + splats_commands(s, k as nat),
            decreases n_splats - k,
        {
            self.record_splat(cmds, k);
            assert(splats_commands(s, (k + 1) as nat) =~= splats_commands(s, k as nat)
                + splat_commands(s, k as nat));
            assert(cmds@ =~= start + splats_commands(s, (k + 1) as nat));
            k = k + 1;
        }
        if viscous && diffusion_iters > 0 {
            self.record_diffuse(cmds, diffusion_iters);
        }
        self.record_divergence(cmds);
        self.record_pressure(cmds, pressure_iters);
        self.record_gradient(cmds);
        self.record_advect_velocity(cmds);
        self.record_advect_dye(cmds);
        reveal(step_commands);
        assert(cmds@ =~= start + step_commands(
            s,
            n_splats as nat,
            viscous,
            diffusion_iters as nat,
            pressure_iters as nat,
        ));
    }

    /// Divergence `∇·u` of the current velocity, into the divergence image.
    pub fn record_divergence(&self, cmds: &mut Vec<Command>)
        ensures
            final(cmds)@ == old(cmds)@.push(divergence_command(self@)),
    {
        cmds.push(
            dispatch(
                Pass::Divergence { velocity: Image::Velocity(self.vel_cur), div: Image::Divergence },
                self.sim_size,
            ),
        );
    }

    /// Pressure gradient `-(1/ρ)∇p`: projects the velocity onto
    /// divergence-free fields, into the next velocity image.
    pub fn record_gradient(&mut self, cmds: &mut Vec<Command>)
        ensures
            final(cmds)@ == old(cmds)@.push(gradient_command(old(self)@)),
            final(self)@ == after_velocity_pass(old(self)@),
            final(self)@.wf(),
    {
        proof { use_type_invariant(&*self); }
        let out = (self.vel_cur + 1) % 3;
        cmds.push(
            dispatch(
                Pass::Gradient {
                    vel_in: Image::Velocity(self.vel_cur),
                    vel_out: Image::Velocity(out),
                    pressure: Image::Pressure(self.pressure_cur),
                },
                self.sim_size,
            ),
        );
        self.vel_cur = out;
    }

    /// Semi-Lagrangian advection of the velocity by itself (`(u·∇)u` term),
    /// into the next velocity image.
    pub fn record_advect_velocity(&mut self, cmds: &mut Vec<Command>)
        ensures
            final(cmds)@ == old(cmds)@.push(advect_velocity_command(old(self)@)),
            final(self)@ == after_velocity_pass(old(self)@),
            final(self)@.wf(),
    {
        proof { use_type_invariant(&*self); }
        let out = (self.vel_cur + 1) % 3;
        cmds.push(
            dispatch(
                Pass::AdvectVelocity {
                    vel_in: Image::Velocity(self.vel_cur),
                    vel_out: Image::Velocity(out),
                    dye_in: Image::Dye(self.dye_cur),
                    dye_out: Image::Dye(1 - self.dye_cur),
                },
                self.sim_size,
            ),
        );
        self.vel_cur = out;
    }

    /// Semi-Lagrangian advection of the dye by the current velocity, into the
    /// other dye image, which becomes the current one.
    pub fn record_advect_dye(&mut self, cmds: &mut Vec<Command>)
        ensures
            final(cmds)@ == old(cmds)@.push(advect_dye_command(old(self)@)),
            final(self)@ == after_advect_dye(old(self)@),
            final(self)@.wf(),
    {
        proof { use_type_invariant(&*self); }
        let out = 1 - self.dye_cur;
        cmds.push(
            dispatch(
                Pass::AdvectDye {
                    vel_in: Image::Velocity(self.vel_cur),
                    vel_out: Image::Velocity((self.vel_cur + 1) % 3),
                    dye_in: Image::Dye(self.dye_cur),
                    dye_out: Image::Dye(out),
                },
                self.dye_size,
            ),
        );
        self.dye_cur = out;
    }
}

/// The images a command binds, in binding order (a clear binds the image
/// it clears).
pub open spec fn bindings(c: Command) -> Seq<Image> {
    match c {
        Command::Clear(img) => seq![img],
        Command::Dispatch(d) => match d.pass {
            Pass::SplatVelocity { velocity, dye, .. } => seq![velocity, dye],
            Pass::SplatDye { velocity, dye, .. } => seq![velocity, dye],
            Pass::Diffuse { u_old, x_in, x_out } => seq![u_old, x_in, x_out],
            Pass::Divergence { velocity, div } => seq![velocity, div],
            Pass::Pressure { p_in, p_out, div } => seq![p_in, p_out, div],
            Pass::Gradient { vel_in, vel_out, pressure } => seq![vel_in, vel_out, pressure],
            Pass::AdvectVelocity { vel_in, vel_out, dye_in, dye_out } => seq![
                vel_in,
                vel_out,
                dye_in,
                dye_out,
            ],
            Pass::AdvectDye { vel_in, vel_out, dye_in, dye_out } => seq![
                vel_in,
                vel_out,
                dye_in,
                dye_out,
            ],
        },
    }
}

/// The binding a command writes.
pub open spec fn output_binding(c: Command) -> int {
    match c {
        Command::Clear(_) => 0,
        Command::Dispatch(d) => match d.pass {
            Pass::SplatVelocity { .. } => 0,
            Pass::SplatDye { .. } => 1,
            Pass::Diffuse { .. } => 2,
            Pass::Divergence { .. } => 1,
            Pass::Pressure { .. } => 1,
            Pass::Gradient { .. } => 1,
            Pass::AdvectVelocity { .. } => 1,
            Pass::AdvectDye { .. } => 3,
        },
    }
}

/// The image a command writes: the image at its output binding.
pub open spec fn writes(c: Command) -> Image {
    match c {
        Command::Clear(img) => img,
        Command::Dispatch(d) => match d.pass {
            Pass::SplatVelocity { velocity, .. } => velocity,
            Pass::SplatDye { dye, .. } => dye,
            Pass::Diffuse { x_out, .. } => x_out,
            Pass::Divergence { div, .. } => div,
            Pass::Pressure { p_out, .. } => p_out,
            Pass::Gradient { vel_out, .. } => vel_out,
            Pass::AdvectVelocity { vel_out, .. } => vel_out,
            Pass::AdvectDye { dye_out, .. } => dye_out,
        },
    }
}

/// `writes` names the image at the output binding.
pub proof fn lemma_writes_is_output_binding(c: Command)
    ensures
        0 <= output_binding(c) < bindings(c).len(),
        writes(c) == bindings(c)[output_binding(c)],
{
}

/// An image that the solver owns.
pub open spec fn is_solver_image(img: Image) -> bool {
    match img {
        Image::Velocity(i) => i < 3,
        Image::Pressure(i) => i < 2,
        Image::Divergence => true,
        Image::Dye(i) => i < 2,
    }
}

/// A dispatch whose workgroups cover its grid, with no workgroup to spare.
pub open spec fn covers_extent(c: Command) -> bool {
    match c {
        Command::Clear(_) => true,
        Command::Dispatch(d) => {
            &&& d.groups.x * WORKGROUP >= d.extent.width
            &&& (d.groups.x == 0 || (d.groups.x - 1) * WORKGROUP < d.extent.width)
            &&& d.groups.y * WORKGROUP >= d.extent.height
            &&& (d.groups.y == 0 || (d.groups.y - 1) * WORKGROUP < d.extent.height)
            &&& d.groups.z == 1
        },
    }
}

/// A command that binds only solver images, whose written image is bound at
/// no other binding (no pass reads the image it is writing), and whose
/// dispatch covers its grid.
pub open spec fn sound_command(c: Command) -> bool {
    let b = bindings(c);
    &&& 0 <= output_binding(c) < b.len()
    &&& forall|j: int| 0 <= j < b.len() ==> is_solver_image(#[trigger] b[j])
    &&& forall|j: int| 0 <= j < b.len() && j != output_binding(c) ==> #[trigger] b[j] != writes(c)
    &&& covers_extent(c)
}

pub open spec fn all_sound(cmds: Seq<Command>) -> bool {
    forall|i: int| 0 <= i < cmds.len() ==> sound_command(#[trigger] cmds[i])
}

/// The images of a pass are solver images and its output image is bound at
/// no other binding.
pub open spec fn pass_sound(p: Pass) -> bool {
    match p {
        Pass::SplatVelocity { velocity, dye, .. } => is_solver_image(velocity) && is_solver_image(dye)
            && velocity != dye,
        Pass::SplatDye { velocity, dye, .. } => is_solver_image(velocity) && is_solver_image(dye)
            && velocity != dye,
        Pass::Diffuse { u_old, x_in, x_out } => is_solver_image(u_old) && is_solver_image(x_in)
            && is_solver_image(x_out) && x_out != u_old && x_out != x_in,
        Pass::Divergence { velocity, div } => is_solver_image(velocity) && is_solver_image(div)
            && div != velocity,
        Pass::Pressure { p_in, p_out, div } => is_solver_image(p_in) && is_solver_image(p_out)
            && is_solver_image(div) && p_out != p_in && p_out != div,
        Pass::Gradient { vel_in, vel_out, pressure } => is_solver_image(vel_in) && is_solver_image(
            vel_out,
        ) && is_solver_image(pressure) && vel_out != vel_in && vel_out != pressure,
        Pass::AdvectVelocity { vel_in, vel_out, dye_in, dye_out } => is_solver_image(vel_in)
            && is_solver_image(vel_out) && is_solver_image(dye_in) && is_solver_image(dye_out)
            && vel_out != vel_in && vel_out != dye_in && vel_out != dye_out,
        Pass::AdvectDye { vel_in, vel_out, dye_in, dye_out } => is_solver_image(vel_in)
            && is_solver_image(vel_out) && is_solver_image(dye_in) && is_solver_image(dye_out)
            && dye_out != dye_in && dye_out != vel_in && dye_out != vel_out,
    }
}

proof fn lemma_dispatch_sound(pass: Pass, extent: Extent)
    requires
        pass_sound(pass),
    ensures
        sound_command(dispatch_spec(pass, extent)),
{
    let c = dispatch_spec(pass, extent);
    let b = bindings(c);
    match pass {
        Pass::SplatVelocity { velocity, dye, .. } => {
            assert(b =~= seq![velocity, dye]);
        },
        Pass::SplatDye { velocity, dye, .. } => {
            assert(b =~= seq![velocity, dye]);
        },
        Pass::Diffuse { u_old, x_in, x_out } => {
            assert(b =~= seq![u_old, x_in, x_out]);
        },
        Pass::Divergence { velocity, div } => {
            assert(b =~= seq![velocity, div]);
        },
        Pass::Pressure { p_in, p_out, div } => {
            assert(b =~= seq![p_in, p_out, div]);
        },
        Pass::Gradient { vel_in, vel_out, pressure } => {
            assert(b =~= seq![vel_in, vel_out, pressure]);
        },
        Pass::AdvectVelocity { vel_in, vel_out, dye_in, dye_out } => {
            assert(b =~= seq![vel_in, vel_out, dye_in, dye_out]);
        },
        Pass::AdvectDye { vel_in, vel_out, dye_in, dye_out } => {
            assert(b =~= seq![vel_in, vel_out, dye_in, dye_out]);
        },
    }
}

proof fn lemma_all_sound_add(a: Seq<Command>, b: Seq<Command>)
    requires
        all_sound(a),
        all_sound(b),
    ensures
        all_sound(a + b),
{
    assert forall|i: int| 0 <= i < (a + b).len() implies sound_command(#[trigger] (a + b)[i]) by {
        if i < a.len() {
            assert((a + b)[i] == a[i]);
        } else {
            assert((a + b)[i] == b[i - a.len()]);
        }
    }
}

proof fn lemma_splats_sound(s: FluidState, n: nat)
    requires
        s.wf(),
    ensures
        all_sound(splats_commands(s, n)),
{
    let sp = splats_commands(s, n);
    assert forall|i: int| 0 <= i < sp.len() implies sound_command(#[trigger] sp[i]) by {
        let k = (i / 2) as usize;
        if i % 2 == 1 {
            lemma_dispatch_sound(
                Pass::SplatDye { splat: k, velocity: s.velocity_image(), dye: s.dye_image() },
                s.dye_size,
            );
        } else {
            lemma_dispatch_sound(
                Pass::SplatVelocity { splat: k, velocity: s.velocity_image(), dye: s.dye_image() },
                s.sim_size,
            );
        }
    }
}

proof fn lemma_diffuse_sound(s: FluidState, iters: nat)
    requires
        s.wf(),
    ensures
        all_sound(diffuse_commands(s, iters)),
{
    let df = diffuse_commands(s, iters);
    assert forall|i: int| 0 <= i < df.len() implies sound_command(#[trigger] df[i]) by {
        let x_in = if i == 0 {
            s.velocity_image()
        } else {
            Image::Velocity(diffuse_target(s.velocity, i - 1) as usize)
        };
        assert((i - 1) % 2 != i % 2);
        lemma_dispatch_sound(
            Pass::Diffuse {
                u_old: s.velocity_image(),
                x_in,
                x_out: Image::Velocity(diffuse_target(s.velocity, i) as usize),
            },
            s.sim_size,
        );
    }
}

proof fn lemma_pressure_sound(s: FluidState, iters: nat)
    requires
        s.wf(),
    ensures
        all_sound(pressure_commands(s, iters)),
{
    let pr = pressure_commands(s, iters);
    assert forall|i: int| 0 <= i < pr.len() implies sound_command(#[trigger] pr[i]) by {
        lemma_dispatch_sound(
            Pass::Pressure {
                p_in: Image::Pressure(((s.pressure + i) % 2) as usize),
                p_out: Image::Pressure(((s.pressure + i + 1) % 2) as usize),
                div: Image::Divergence,
            },
            s.sim_size,
        );
    }
}

/// Every command of a full time step binds only solver images, never binds
/// the image it writes at another binding, and dispatches enough workgroups
/// to cover its grid and no more.
pub proof fn lemma_step_commands_sound(
    s: FluidState,
    n_splats: nat,
    viscous: bool,
    diffusion_iters: nat,
    pressure_iters: nat,
)
    requires
        s.wf(),
    ensures
        all_sound(step_commands(s, n_splats, viscous, diffusion_iters, pressure_iters)),
{
    let s1 = step_state_diffused(s, viscous, diffusion_iters);
    let s2 = after_pressure(s1, pressure_iters);
    let s3 = after_velocity_pass(s2);
    let s4 = after_velocity_pass(s3);
    let sp = splats_commands(s, n_splats);
    lemma_splats_sound(s, n_splats);
    let df: Seq<Command> = if step_diffuses(viscous, diffusion_iters) {
        diffuse_commands(s, diffusion_iters)
    } else {
        Seq::empty()
    };
    if step_diffuses(viscous, diffusion_iters) {
        lemma_diffuse_sound(s, diffusion_iters);
    }
    let dv = seq![divergence_command(s1)];
    lemma_dispatch_sound(Pass::Divergence { velocity: s1.velocity_image(), div: Image::Divergence }, s1.sim_size);
    assert(all_sound(dv));
    let pr = pressure_commands(s1, pressure_iters);
    lemma_pressure_sound(s1, pressure_iters);
    let tail = seq![gradient_command(s2), advect_velocity_command(s3), advect_dye_command(s4)];
    lemma_dispatch_sound(
        Pass::Gradient {
            vel_in: s2.velocity_image(),
            vel_out: s2.next_velocity_image(),
            pressure: s2.pressure_image(),
        },
        s2.sim_size,
    );
    lemma_dispatch_sound(
        Pass::AdvectVelocity {
            vel_in: s3.velocity_image(),
            vel_out: s3.next_velocity_image(),
            dye_in: s3.dye_image(),
            dye_out: s3.other_dye_image(),
        },
        s3.sim_size,
    );
    lemma_dispatch_sound(
        Pass::AdvectDye {
            vel_in: s4.velocity_image(),
            vel_out: s4.next_velocity_image(),
            dye_in: s4.dye_image(),
            dye_out: s4.other_dye_image(),
        },
        s4.dye_size,
    );
    assert(all_sound(tail));
    lemma_all_sound_add(sp, df);
    lemma_all_sound_add(sp + df, dv);
    lemma_all_sound_add(sp + df + dv, pr);
    lemma_all_sound_add(sp + df + dv + pr, tail);
    reveal(step_commands);
    assert(step_commands(s, n_splats, viscous, diffusion_iters, pressure_iters) == sp + df + dv
        + pr + tail);
}

/// Index in the commands of a step of its divergence dispatch, where the
/// projection starts: after the splats and the viscous solve.
pub open spec fn projection_start(n_splats: nat, viscous: bool, diffusion_iters: nat) -> nat {
    2 * n_splats + if step_diffuses(viscous, diffusion_iters) {
        diffuse_iterations(diffusion_iters)
    } else {
        0
    }
}

proof fn lemma_diffuse_dispatch(s: FluidState, i: int)
    requires
        s.wf(),
        i >= 0,
    ensures
        bindings(diffuse_dispatch(s, i))[0] == s.velocity_image(),
        i == 0 ==> bindings(diffuse_dispatch(s, i))[1] == s.velocity_image(),
        writes(diffuse_dispatch(s, i)) == Image::Velocity(diffuse_target(s.velocity, i) as usize),
        writes(diffuse_dispatch(s, i)) != s.velocity_image(),
        i > 0 ==> bindings(diffuse_dispatch(s, i))[1] == Image::Velocity(
            diffuse_target(s.velocity, i - 1) as usize,
        ),
{
    let b = bindings(diffuse_dispatch(s, i));
    assert(b[0] == s.velocity_image());
    assert(b[1] == if i == 0 {
        s.velocity_image()
    } else {
        Image::Velocity(diffuse_target(s.velocity, i - 1) as usize)
    });
    assert(diffuse_target(s.velocity, i) != s.velocity);
}

/// Iteration `i` of the viscous solve (counting from 0) is the `i`-th
/// command of `diffuse_commands`.
proof fn lemma_diffuse_index(s: FluidState, iters: nat, i: int)
    requires
        0 <= i < diffuse_iterations(iters),
    ensures
        diffuse_commands(s, iters)[i] == diffuse_dispatch(s, i),
{
}

/// The viscous solve keeps `u_old` (the velocity it starts from) fixed and
/// never writes it; the first iteration starts from `u_old`, each later one
/// reads the iterate the one before wrote, and the last iterate becomes the
/// current velocity.
#[verifier::spinoff_prover]
pub proof fn lemma_diffuse_chain(s: FluidState, iters: nat)
    requires
        s.wf(),
    ensures
        ({
            let c = diffuse_commands(s, iters);
            let n = diffuse_iterations(iters);
            &&& c.len() == n
            &&& forall|i: int| 0 <= i < n ==> bindings(#[trigger] c[i])[0] == s.velocity_image()
            &&& forall|i: int| 0 <= i < n ==> writes(#[trigger] c[i]) != s.velocity_image()
            &&& bindings(c[0])[1] == s.velocity_image()
            &&& forall|i: int| 1 <= i < n ==> bindings(#[trigger] c[i])[1] == writes(c[i - 1])
            &&& writes(c[n - 1]) == after_diffuse(s, iters).velocity_image()
        }),
{
    let c = diffuse_commands(s, iters);
    let n = diffuse_iterations(iters);
    assert forall|i: int| 0 <= i < n implies bindings(#[trigger] c[i])[0] == s.velocity_image()
        && writes(c[i]) != s.velocity_image() by {
        lemma_diffuse_index(s, iters, i);
        lemma_diffuse_dispatch(s, i);
    }
    assert forall|i: int| 1 <= i < n implies bindings(#[trigger] c[i])[1] == writes(c[i - 1]) by {
        lemma_diffuse_index(s, iters, i);
        lemma_diffuse_index(s, iters, i - 1);
        lemma_diffuse_dispatch(s, i);
        lemma_diffuse_dispatch(s, i - 1);
    }
    lemma_diffuse_index(s, iters, 0);
    lemma_diffuse_dispatch(s, 0);
    lemma_diffuse_index(s, iters, n - 1);
    lemma_diffuse_dispatch(s, n - 1);
}

/// The passes of one time step hand their results on in order: the splats
/// act on the current velocity and dye; the divergence is measured on the
/// velocity the viscosity stage left; the pressure solve (when it runs any
/// iteration) starts from the previous step's pressure, each iteration
/// reading the one before and the divergence just measured; the gradient
/// subtracts the final pressure (the previous step's when the solve runs no
/// iteration) from the velocity whose divergence was measured; the velocity
/// is advected from the projected field and the dye by the advected
/// velocity, from the image the splats coloured into the image that is
/// current (displayed) afterwards.
pub proof fn lemma_step_dataflow(
    s: FluidState,
    n_splats: nat,
    viscous: bool,
    diffusion_iters: nat,
    pressure_iters: nat,
)
    requires
        s.wf(),
    ensures
        ({
            let c = step_commands(s, n_splats, viscous, diffusion_iters, pressure_iters);
            let m = projection_start(n_splats, viscous, diffusion_iters) as int;
            let q = pressure_iters as int;
            let s1 = step_state_diffused(s, viscous, diffusion_iters);
            &&& c.len() == m + q + 4
            &&& forall|j: int| 0 <= j < 2 * n_splats ==> #[trigger] bindings(c[j]) == seq![
                s.velocity_image(),
                s.dye_image(),
            ]
            &&& step_diffuses(viscous, diffusion_iters) ==> bindings(c[2 * n_splats as int])[0]
                == s.velocity_image()
            &&& step_diffuses(viscous, diffusion_iters) ==> writes(c[m - 1]) == s1.velocity_image()
            &&& bindings(c[m])[0] == s1.velocity_image()
            &&& q > 0 ==> bindings(c[m + 1])[0] == s.pressure_image()
            &&& forall|i: int| 1 <= i < q ==> bindings(#[trigger] c[m + 1 + i])[0] == writes(c[m + i])
            &&& forall|i: int| 0 <= i < q ==> bindings(#[trigger] c[m + 1 + i])[2] == writes(c[m])
            &&& q > 0 ==> bindings(c[m + q + 1])[2] == writes(c[m + q])
            &&& q == 0 ==> bindings(c[m + q + 1])[2] == s.pressure_image()
            &&& bindings(c[m + q + 1])[0] == bindings(c[m])[0]
            &&& bindings(c[m + q + 2])[0] == writes(c[m + q + 1])
            &&& bindings(c[m + q + 3])[0] == writes(c[m + q + 2])
            &&& bindings(c[m + q + 3])[2] == s.dye_image()
            &&& writes(c[m + q + 3]) == after_step(
                s,
                viscous,
                diffusion_iters,
                pressure_iters,
            ).dye_image()
        }),
{
    lemma_step_layout(s, n_splats, viscous, diffusion_iters, pressure_iters);
    lemma_step_splats_dataflow(s, n_splats, viscous, diffusion_iters, pressure_iters);
    lemma_step_projection_dataflow(s, n_splats, viscous, diffusion_iters, pressure_iters);
}

/// Where each stage's commands stand in the commands of a step.
proof fn lemma_step_layout(
    s: FluidState,
    n_splats: nat,
    viscous: bool,
    diffusion_iters: nat,
    pressure_iters: nat,
)
    requires
        s.wf(),
    ensures
        ({
            let c = step_commands(s, n_splats, viscous, diffusion_iters, pressure_iters);
            let m = projection_start(n_splats, viscous, diffusion_iters) as int;
            let q = pressure_iters as int;
            let s1 = step_state_diffused(s, viscous, diffusion_iters);
            let s2 = after_pressure(s1, pressure_iters);
            let s3 = after_velocity_pass(s2);
            let s4 = after_velocity_pass(s3);
            &&& c.len() == m + q + 4
            &&& forall|j: int| 0 <= j < 2 * n_splats ==> #[trigger] c[j] == splats_commands(s, n_splats)[j]
            &&& forall|j: int| 2 * n_splats <= j < m ==> #[trigger] c[j] == diffuse_commands(s, diffusion_iters)[j - 2 * n_splats]
            &&& c[m] == divergence_command(s1)
            &&& forall|i: int| 0 <= i < q ==> #[trigger] c[m + 1 + i] == pressure_dispatch(s1, i)
            &&& c[m + q + 1] == gradient_command(s2)
            &&& c[m + q + 2] == advect_velocity_command(s3)
            &&& c[m + q + 3] == advect_dye_command(s4)
        }),
{
    reveal(step_commands);
    let c = step_commands(s, n_splats, viscous, diffusion_iters, pressure_iters);
    let m = projection_start(n_splats, viscous, diffusion_iters) as int;
    let q = pressure_iters as int;
    let s1 = step_state_diffused(s, viscous, diffusion_iters);
    let s2 = after_pressure(s1, pressure_iters);
    let s3 = after_velocity_pass(s2);
    let s4 = after_velocity_pass(s3);
    let sp = splats_commands(s, n_splats);
    let df: Seq<Command> = if step_diffuses(viscous, diffusion_iters) {
        diffuse_commands(s, diffusion_iters)
    } else {
        Seq::empty()
    };
    let dv = seq![divergence_command(s1)];
    let pr = pressure_commands(s1, pressure_iters);
    let tail = seq![gradient_command(s2), advect_velocity_command(s3), advect_dye_command(s4)];
    let a = sp + df;
    let b = a + dv;
    let d = b + pr;
    assert(c == d + tail);
    assert(a.len() == m);
    assert forall|j: int| 0 <= j < 2 * n_splats implies #[trigger] c[j] == sp[j] by {
        assert(c[j] == d[j]);
        assert(d[j] == b[j]);
        assert(b[j] == a[j]);
    }
    assert forall|j: int| 2 * n_splats <= j < m implies #[trigger] c[j] == diffuse_commands(s, diffusion_iters)[j - 2 * n_splats] by {
        assert(c[j] == d[j]);
        assert(d[j] == b[j]);
        assert(b[j] == a[j]);
        assert(a[j] == df[j - 2 * n_splats]);
    }
    assert(c[m] == d[m]);
    assert(d[m] == b[m]);
    assert forall|i: int| 0 <= i < q implies #[trigger] c[m + 1 + i] == pressure_dispatch(s1, i) by {
        assert(c[m + 1 + i] == d[m + 1 + i]);
        assert(d[m + 1 + i] == pr[i]);
    }
    assert(c[m + q + 1] == tail[0]);
    assert(c[m + q + 2] == tail[1]);
    assert(c[m + q + 3] == tail[2]);
}

#[verifier::spinoff_prover]
proof fn lemma_step_splats_dataflow(
    s: FluidState,
    n_splats: nat,
    viscous: bool,
    diffusion_iters: nat,
    pressure_iters: nat,
)
    requires
        s.wf(),
    ensures
        ({
            let c = step_commands(s, n_splats, viscous, diffusion_iters, pressure_iters);
            let m = projection_start(n_splats, viscous, diffusion_iters) as int;
            let s1 = step_state_diffused(s, viscous, diffusion_iters);
            &&& forall|j: int| 0 <= j < 2 * n_splats ==> #[trigger] bindings(c[j]) == seq![
                s.velocity_image(),
                s.dye_image(),
            ]
            &&& step_diffuses(viscous, diffusion_iters) ==> bindings(c[2 * n_splats as int])[0]
                == s.velocity_image()
            &&& step_diffuses(viscous, diffusion_iters) ==> writes(c[m - 1]) == s1.velocity_image()
        }),
{
    let c = step_commands(s, n_splats, viscous, diffusion_iters, pressure_iters);
    let m = projection_start(n_splats, viscous, diffusion_iters) as int;
    lemma_step_layout(s, n_splats, viscous, diffusion_iters, pressure_iters);
    let sp = splats_commands(s, n_splats);
    assert forall|j: int| 0 <= j < 2 * n_splats implies #[trigger] bindings(c[j]) == seq![
        s.velocity_image(),
        s.dye_image(),
    ] by {
        assert(c[j] == sp[j]);
        assert(bindings(sp[j]) =~= seq![s.velocity_image(), s.dye_image()]);
    }
    if step_diffuses(viscous, diffusion_iters) {
        lemma_diffuse_chain(s, diffusion_iters);
        assert(c[2 * n_splats as int] == diffuse_commands(s, diffusion_iters)[0]);
        assert(c[m - 1] == diffuse_commands(s, diffusion_iters)[m - 1 - 2 * n_splats]);
    }
}

proof fn lemma_pressure_dispatch(s: FluidState, i: int)
    requires
        s.wf(),
        i >= 0,
    ensures
        bindings(pressure_dispatch(s, i)) == seq![
            Image::Pressure(((s.pressure + i) % 2) as usize),
            Image::Pressure(((s.pressure + i + 1) % 2) as usize),
            Image::Divergence,
        ],
        writes(pressure_dispatch(s, i)) == Image::Pressure(((s.pressure + i + 1) % 2) as usize),
        i > 0 ==> bindings(pressure_dispatch(s, i))[0] == writes(pressure_dispatch(s, i - 1)),
{
    assert(bindings(pressure_dispatch(s, i)) =~= seq![
        Image::Pressure(((s.pressure + i) % 2) as usize),
        Image::Pressure(((s.pressure + i + 1) % 2) as usize),
        Image::Divergence,
    ]);
}

#[verifier::spinoff_prover]
proof fn lemma_step_projection_dataflow(
    s: FluidState,
    n_splats: nat,
    viscous: bool,
    diffusion_iters: nat,
    pressure_iters: nat,
)
    requires
        s.wf(),
    ensures
        ({
            let c = step_commands(s, n_splats, viscous, diffusion_iters, pressure_iters);
            let m = projection_start(n_splats, viscous, diffusion_iters) as int;
            let q = pressure_iters as int;
            let s1 = step_state_diffused(s, viscous, diffusion_iters);
            &&& bindings(c[m])[0] == s1.velocity_image()
            &&& q > 0 ==> bindings(c[m + 1])[0] == s.pressure_image()
            &&& forall|i: int| 1 <= i < q ==> bindings(#[trigger] c[m + 1 + i])[0] == writes(c[m + i])
            &&& forall|i: int| 0 <= i < q ==> bindings(#[trigger] c[m + 1 + i])[2] == writes(c[m])
            &&& q > 0 ==> bindings(c[m + q + 1])[2] == writes(c[m + q])
            &&& q == 0 ==> bindings(c[m + q + 1])[2] == s.pressure_image()
            &&& bindings(c[m + q + 1])[0] == bindings(c[m])[0]
            &&& bindings(c[m + q + 2])[0] == writes(c[m + q + 1])
            &&& bindings(c[m + q + 3])[0] == writes(c[m + q + 2])
            &&& bindings(c[m + q + 3])[2] == s.dye_image()
            &&& writes(c[m + q + 3]) == after_step(
                s,
                viscous,
                diffusion_iters,
                pressure_iters,
            ).dye_image()
        }),
{
    let c = step_commands(s, n_splats, viscous, diffusion_iters, pressure_iters);
    let m = projection_start(n_splats, viscous, diffusion_iters) as int;
    let q = pressure_iters as int;
    lemma_step_layout(s, n_splats, viscous, diffusion_iters, pressure_iters);
    let s1 = step_state_diffused(s, viscous, diffusion_iters);
    if q > 0 {
        assert(c[m + 1 + 0] == pressure_dispatch(s1, 0));
        lemma_pressure_dispatch(s1, 0);
        assert(c[m + 1 + (q - 1)] == pressure_dispatch(s1, q - 1));
        lemma_pressure_dispatch(s1, q - 1);
    }
    assert forall|i: int| 1 <= i < q implies bindings(#[trigger] c[m + 1 + i])[0] == writes(c[m + i]) by {
        assert(c[m + 1 + i] == pressure_dispatch(s1, i));
        assert(c[m + 1 + (i - 1)] == pressure_dispatch(s1, i - 1));
        assert(m + 1 + (i - 1) == m + i);
        lemma_pressure_dispatch(s1, i);
    }
    assert forall|i: int| 0 <= i < q implies bindings(#[trigger] c[m + 1 + i])[2] == writes(c[m]) by {
        assert(c[m + 1 + i] == pressure_dispatch(s1, i));
        lemma_pressure_dispatch(s1, i);
    }
}

/// `record_reset` clears every solver image exactly once and nothing else.
pub proof fn lemma_reset_clears_every_image_once()
    ensures
        ({
            let c = reset_commands();
            &&& forall|i: int| 0 <= i < c.len() ==> (#[trigger] c[i] matches Command::Clear(img)
                && is_solver_image(img))
            &&& forall|img: Image| is_solver_image(img) ==> c.contains(Command::Clear(img))
            &&& forall|i: int, j: int| 0 <= i < j < c.len() ==> c[i] != c[j]
        }),
{
    let c = reset_commands();
    assert forall|img: Image| is_solver_image(img) implies c.contains(Command::Clear(img)) by {
        match img {
            Image::Velocity(i) => {
                if i == 0 {
                    assert(c[0] == Command::Clear(img));
                } else if i == 1 {
                    assert(c[1] == Command::Clear(img));
                } else {
                    assert(c[2] == Command::Clear(img));
                }
            },
            Image::Pressure(i) => {
                if i == 0 {
                    assert(c[3] == Command::Clear(img));
                } else {
                    assert(c[4] == Command::Clear(img));
                }
            },
            Image::Divergence => {
                assert(c[5] == Command::Clear(img));
            },
            Image::Dye(i) => {
                if i == 0 {
                    assert(c[6] == Command::Clear(img));
                } else {
                    assert(c[7] == Command::Clear(img));
                }
            },
        }
    }
}

/// The passes that run over the dye grid; every other pass runs over the
/// simulation grid.
pub open spec fn is_dye_pass(p: Pass) -> bool {
    match p {
        Pass::SplatDye { .. } => true,
        Pass::AdvectDye { .. } => true,
        _ => false,
    }
}

/// The solver stages record as many dispatches as asked: the viscous solve
/// `iters` Jacobi iterations (at least one), the pressure solve exactly
/// `iters`, and `n` splats two dispatches each.
pub proof fn lemma_iteration_counts(s: FluidState, iters: nat)
    ensures
        diffuse_commands(s, iters).len() == if iters == 0 {
            1
        } else {
            iters
        },
        pressure_commands(s, iters).len() == iters,
        splats_commands(s, iters).len() == 2 * iters,
{
}

/// The commands of a time step, position by position: splat `k` as a
/// velocity dispatch then a dye dispatch, the requested number of viscous
/// iterations (none unless `viscous` and `diffusion_iters > 0`), the
/// divergence, `pressure_iters` pressure iterations, the gradient, velocity
/// advection and dye advection. Every command is a dispatch, the dye passes
/// over the dye grid and all others over the simulation grid.
pub proof fn lemma_step_shape(
    s: FluidState,
    n_splats: nat,
    viscous: bool,
    diffusion_iters: nat,
    pressure_iters: nat,
)
    requires
        s.wf(),
    ensures
        ({
            let c = step_commands(s, n_splats, viscous, diffusion_iters, pressure_iters);
            let m: int = 2 * n_splats + if viscous && diffusion_iters > 0 {
                diffusion_iters as int
            } else {
                0
            };
            let q: int = pressure_iters as int;
            &&& c.len() == m + q + 4
            &&& forall|k: int| 0 <= k < n_splats ==> (#[trigger] c[2 * k] matches Command::Dispatch(
                Dispatch { pass: Pass::SplatVelocity { splat, .. }, .. },
            ) && splat == k as usize)
            &&& forall|k: int| 0 <= k < n_splats ==> (#[trigger] c[2 * k + 1] matches Command::Dispatch(
                Dispatch { pass: Pass::SplatDye { splat, .. }, .. },
            ) && splat == k as usize)
            &&& forall|j: int| 2 * n_splats <= j < m ==> (#[trigger] c[j] matches Command::Dispatch(
                Dispatch { pass: Pass::Diffuse { .. }, .. },
            ))
            &&& c[m] matches Command::Dispatch(Dispatch { pass: Pass::Divergence { .. }, .. })
            &&& forall|i: int| 0 <= i < q ==> (#[trigger] c[m + 1 + i] matches Command::Dispatch(
                Dispatch { pass: Pass::Pressure { .. }, .. },
            ))
            &&& c[m + q + 1] matches Command::Dispatch(Dispatch { pass: Pass::Gradient { .. }, .. })
            &&& c[m + q + 2] matches Command::Dispatch(
                Dispatch { pass: Pass::AdvectVelocity { .. }, .. },
            )
            &&& c[m + q + 3] matches Command::Dispatch(Dispatch { pass: Pass::AdvectDye { .. }, .. })
            &&& forall|i: int| 0 <= i < c.len() ==> (#[trigger] c[i] matches Command::Dispatch(d)
                && d.extent == if is_dye_pass(d.pass) {
                s.dye_size
            } else {
                s.sim_size
            })
        }),
{
    let c = step_commands(s, n_splats, viscous, diffusion_iters, pressure_iters);
    let m = projection_start(n_splats, viscous, diffusion_iters) as int;
    let q = pressure_iters as int;
    lemma_step_layout(s, n_splats, viscous, diffusion_iters, pressure_iters);
    let sp = splats_commands(s, n_splats);
    assert forall|k: int| 0 <= k < n_splats implies (#[trigger] c[2 * k] matches Command::Dispatch(
        Dispatch { pass: Pass::SplatVelocity { splat, .. }, .. },
    ) && splat == k as usize) by {
        assert(c[2 * k] == sp[2 * k]);
        assert((2 * k) / 2 == k && (2 * k) % 2 == 0);
    }
    assert forall|k: int| 0 <= k < n_splats implies (#[trigger] c[2 * k + 1] matches Command::Dispatch(
        Dispatch { pass: Pass::SplatDye { splat, .. }, .. },
    ) && splat == k as usize) by {
        assert(c[2 * k + 1] == sp[2 * k + 1]);
        assert((2 * k + 1) / 2 == k && (2 * k + 1) % 2 == 1);
    }
    assert forall|j: int| 2 * n_splats <= j < m implies (#[trigger] c[j] matches Command::Dispatch(
        Dispatch { pass: Pass::Diffuse { .. }, .. },
    )) by {
        lemma_diffuse_index(s, diffusion_iters, j - 2 * n_splats);
    }
    assert forall|i: int| 0 <= i < c.len() implies (#[trigger] c[i] matches Command::Dispatch(d)
        && d.extent == if is_dye_pass(d.pass) {
        s.dye_size
    } else {
        s.sim_size
    }) by {
        if i < 2 * n_splats {
            assert(c[i] == sp[i]);
        } else if i < m {
            lemma_diffuse_index(s, diffusion_iters, i - 2 * n_splats);
        } else if m < i <= m + q {
            assert(c[m + 1 + (i - m - 1)] == pressure_dispatch(
                step_state_diffused(s, viscous, diffusion_iters),
                i - m - 1,
            ));
        }
    }
}

/// After a full time step the solver's current images are the ones the step
/// wrote last: the velocity its velocity advection wrote, the dye its dye
/// advection wrote, and the pressure its last pressure iteration wrote (the
/// previous pressure when it ran none). The grids are unchanged.
pub proof fn lemma_step_leaves_latest_fields(
    s: FluidState,
    n_splats: nat,
    viscous: bool,
    diffusion_iters: nat,
    pressure_iters: nat,
)
    requires
        s.wf(),
    ensures
        ({
            let c = step_commands(s, n_splats, viscous, diffusion_iters, pressure_iters);
            let m: int = 2 * n_splats + if viscous && diffusion_iters > 0 {
                diffusion_iters as int
            } else {
                0
            };
            let q: int = pressure_iters as int;
            let t = after_step(s, viscous, diffusion_iters, pressure_iters);
            &&& t.wf()
            &&& t.sim_size == s.sim_size
            &&& t.dye_size == s.dye_size
            &&& t.velocity_image() == writes(c[m + q + 2])
            &&& t.dye_image() == writes(c[m + q + 3])
            &&& q > 0 ==> t.pressure_image() == writes(c[m + q])
            &&& q == 0 ==> t.pressure == s.pressure
        }),
{
    let c = step_commands(s, n_splats, viscous, diffusion_iters, pressure_iters);
    let m = projection_start(n_splats, viscous, diffusion_iters) as int;
    let q = pressure_iters as int;
    lemma_step_layout(s, n_splats, viscous, diffusion_iters, pressure_iters);
    let s1 = step_state_diffused(s, viscous, diffusion_iters);
    if q > 0 {
        assert(c[m + 1 + (q - 1)] == pressure_dispatch(s1, q - 1));
        lemma_pressure_dispatch(s1, q - 1);
    }
}

/// Each stage leaves as current the image it wrote, and the stages after it
/// read that image: the gradient's and the velocity advection's outputs
/// become the velocity the next pass reads, the dye advection's output the
/// dye shown, and advecting the dye leaves the velocity the next divergence
/// reads at the one the dye advection was driven by.
pub proof fn lemma_stage_results(s: FluidState)
    requires
        s.wf(),
    ensures
        bindings(divergence_command(after_velocity_pass(s)))[0] == writes(gradient_command(s)),
        bindings(divergence_command(after_velocity_pass(s)))[0] == writes(
            advect_velocity_command(s),
        ),
        after_advect_dye(s).dye_image() == writes(advect_dye_command(s)),
        bindings(divergence_command(after_advect_dye(s)))[0] == bindings(
            advect_dye_command(s),
        )[0],
        after_velocity_pass(s).wf(),
        after_advect_dye(s).wf(),
{
}

/// The two advection passes of a step bind the same dye images: both read
/// the current dye and name as output the other dye image, which the dye
/// advection writes. The dye advection's second velocity binding is the
/// velocity image that neither the velocity advection read nor wrote.
pub proof fn lemma_step_advection_bindings(
    s: FluidState,
    n_splats: nat,
    viscous: bool,
    diffusion_iters: nat,
    pressure_iters: nat,
)
    requires
        s.wf(),
    ensures
        ({
            let c = step_commands(s, n_splats, viscous, diffusion_iters, pressure_iters);
            let m: int = 2 * n_splats + if viscous && diffusion_iters > 0 {
                diffusion_iters as int
            } else {
                0
            };
            let q: int = pressure_iters as int;
            let av = bindings(c[m + q + 2]);
            let ad = bindings(c[m + q + 3]);
            &&& av[2] == s.dye_image()
            &&& ad[2] == s.dye_image()
            &&& av[3] == ad[3]
            &&& av[3] == writes(c[m + q + 3])
            &&& ad[1] != av[0]
            &&& ad[1] != av[1]
            &&& ad[1] matches Image::Velocity(_)
        }),
{
    lemma_step_layout(s, n_splats, viscous, diffusion_iters, pressure_iters);
}

} // verus!
