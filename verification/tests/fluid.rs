use navier_stokes_vulkan::fluid::{Command, Dispatch, FluidSim, Groups, Image, Pass};
use navier_stokes_vulkan::grid::Extent;

const SIM: Extent = Extent { width: 410, height: 256 };
const DYE: Extent = Extent { width: 820, height: 512 };

fn on_sim(pass: Pass) -> Command {
    Command::Dispatch(Dispatch { pass, extent: SIM, groups: Groups { x: 52, y: 32, z: 1 } })
}

fn on_dye(pass: Pass) -> Command {
    Command::Dispatch(Dispatch { pass, extent: DYE, groups: Groups { x: 103, y: 64, z: 1 } })
}

fn pass_of(c: &Command) -> Pass {
    match c {
        Command::Dispatch(d) => d.pass,
        Command::Clear(_) => panic!("not a dispatch"),
    }
}

/// Images of a command in binding order, and the index of the one written.
fn bindings(c: &Command) -> (Vec<Image>, usize) {
    match c {
        Command::Clear(img) => (vec![*img], 0),
        Command::Dispatch(d) => match d.pass {
            Pass::SplatVelocity { velocity, dye, .. } => (vec![velocity, dye], 0),
            Pass::SplatDye { velocity, dye, .. } => (vec![velocity, dye], 1),
            Pass::Diffuse { u_old, x_in, x_out } => (vec![u_old, x_in, x_out], 2),
            Pass::Divergence { velocity, div } => (vec![velocity, div], 1),
            Pass::Pressure { p_in, p_out, div } => (vec![p_in, p_out, div], 1),
            Pass::Gradient { vel_in, vel_out, pressure } => (vec![vel_in, vel_out, pressure], 1),
            Pass::AdvectVelocity { vel_in, vel_out, dye_in, dye_out } => {
                (vec![vel_in, vel_out, dye_in, dye_out], 1)
            }
            Pass::AdvectDye { vel_in, vel_out, dye_in, dye_out } => {
                (vec![vel_in, vel_out, dye_in, dye_out], 3)
            }
        },
    }
}

fn written(c: &Command) -> Image {
    let (b, out) = bindings(c);
    b[out]
}

#[test]
fn new_sim_sizes_and_indices() {
    let sim = FluidSim::new(410);
    assert_eq!(sim.sim_size(), SIM);
    assert_eq!(sim.dye_size(), DYE);
    assert_eq!(sim.dye_view(), Image::Dye(0));
    assert_eq!(sim.div_view(), Image::Divergence);
}

#[test]
fn reset_clears_every_image_once() {
    let sim = FluidSim::new(410);
    let mut cmds = vec![Command::Clear(Image::Divergence)];
    sim.record_reset(&mut cmds);
    assert_eq!(
        cmds,
        vec![
            Command::Clear(Image::Divergence),
            Command::Clear(Image::Velocity(0)),
            Command::Clear(Image::Velocity(1)),
            Command::Clear(Image::Velocity(2)),
            Command::Clear(Image::Pressure(0)),
            Command::Clear(Image::Pressure(1)),
            Command::Clear(Image::Divergence),
            Command::Clear(Image::Dye(0)),
            Command::Clear(Image::Dye(1)),
        ]
    );
    assert_eq!(sim.dye_view(), Image::Dye(0));
}

#[test]
fn splat_runs_on_both_grids() {
    let sim = FluidSim::new(410);
    let mut cmds = Vec::new();
    sim.record_splat(&mut cmds, 3);
    let v = Image::Velocity(0);
    let d = Image::Dye(0);
    assert_eq!(
        cmds,
        vec![
            on_sim(Pass::SplatVelocity { splat: 3, velocity: v, dye: d }),
            on_dye(Pass::SplatDye { splat: 3, velocity: v, dye: d }),
        ]
    );
}

#[test]
fn diffuse_ping_pongs_and_keeps_u_old() {
    let mut sim = FluidSim::new(410);
    let mut cmds = Vec::new();
    sim.record_diffuse(&mut cmds, 3);
    let v = Image::Velocity;
    assert_eq!(
        cmds,
        vec![
            on_sim(Pass::Diffuse { u_old: v(0), x_in: v(0), x_out: v(1) }),
            on_sim(Pass::Diffuse { u_old: v(0), x_in: v(1), x_out: v(2) }),
            on_sim(Pass::Diffuse { u_old: v(0), x_in: v(2), x_out: v(1) }),
        ]
    );
    // The last iterate is the current velocity.
    let mut more = Vec::new();
    sim.record_divergence(&mut more);
    assert_eq!(more, vec![on_sim(Pass::Divergence { velocity: v(1), div: Image::Divergence })]);
}

#[test]
fn diffuse_with_even_iterations_ends_in_other_scratch_image() {
    let mut sim = FluidSim::new(410);
    let mut cmds = Vec::new();
    sim.record_diffuse(&mut cmds, 2);
    sim.record_divergence(&mut cmds);
    assert_eq!(cmds.len(), 3);
    assert_eq!(
        pass_of(&cmds[2]),
        Pass::Divergence { velocity: Image::Velocity(2), div: Image::Divergence }
    );
}

#[test]
fn diffuse_with_zero_iterations_still_runs_once() {
    let mut sim = FluidSim::new(410);
    let mut cmds = Vec::new();
    sim.record_diffuse(&mut cmds, 0);
    assert_eq!(
        cmds,
        vec![on_sim(Pass::Diffuse {
            u_old: Image::Velocity(0),
            x_in: Image::Velocity(0),
            x_out: Image::Velocity(1),
        })]
    );
}

#[test]
fn pressure_warm_start_and_chain() {
    let mut sim = FluidSim::new(410);
    let mut cmds = Vec::new();
    sim.record_pressure(&mut cmds, 3);
    let p = Image::Pressure;
    let div = Image::Divergence;
    assert_eq!(
        cmds,
        vec![
            on_sim(Pass::Pressure { p_in: p(0), p_out: p(1), div }),
            on_sim(Pass::Pressure { p_in: p(1), p_out: p(0), div }),
            on_sim(Pass::Pressure { p_in: p(0), p_out: p(1), div }),
        ]
    );
    // A solve of no iterations records nothing and keeps the pressure.
    let mut none = Vec::new();
    sim.record_pressure(&mut none, 0);
    assert!(none.is_empty());
    // The next solve starts from where the last one ended.
    let mut next = Vec::new();
    sim.record_pressure(&mut next, 1);
    assert_eq!(next, vec![on_sim(Pass::Pressure { p_in: p(1), p_out: p(0), div })]);
}

#[test]
fn step_without_pressure_iterations() {
    let mut sim = FluidSim::new(410);
    let mut cmds = Vec::new();
    sim.record_pressure(&mut cmds, 1);
    let mut cmds = Vec::new();
    sim.record_step(&mut cmds, 0, false, 8, 0);
    assert_eq!(cmds.len(), 1 + 3);
    assert!(matches!(pass_of(&cmds[0]), Pass::Divergence { .. }));
    // The gradient uses the pressure of the previous solve.
    assert_eq!(
        pass_of(&cmds[1]),
        Pass::Gradient {
            vel_in: Image::Velocity(0),
            vel_out: Image::Velocity(1),
            pressure: Image::Pressure(1),
        }
    );
}

#[test]
fn gradient_uses_latest_pressure() {
    let mut sim = FluidSim::new(410);
    let mut cmds = Vec::new();
    sim.record_pressure(&mut cmds, 1);
    sim.record_gradient(&mut cmds);
    assert_eq!(
        pass_of(&cmds[1]),
        Pass::Gradient {
            vel_in: Image::Velocity(0),
            vel_out: Image::Velocity(1),
            pressure: Image::Pressure(1),
        }
    );
}

#[test]
fn advection_moves_velocity_then_dye() {
    let mut sim = FluidSim::new(410);
    let mut cmds = Vec::new();
    sim.record_advect_velocity(&mut cmds);
    sim.record_advect_dye(&mut cmds);
    let v = Image::Velocity;
    let d = Image::Dye;
    assert_eq!(
        cmds,
        vec![
            on_sim(Pass::AdvectVelocity { vel_in: v(0), vel_out: v(1), dye_in: d(0), dye_out: d(1) }),
            on_dye(Pass::AdvectDye { vel_in: v(1), vel_out: v(2), dye_in: d(0), dye_out: d(1) }),
        ]
    );
    assert_eq!(sim.dye_view(), Image::Dye(1));
}

#[test]
fn step_without_viscosity() {
    let mut sim = FluidSim::new(410);
    let mut cmds = Vec::new();
    sim.record_step(&mut cmds, 1, false, 8, 44);
    assert_eq!(cmds.len(), 2 + 1 + 44 + 3);
    assert!(matches!(pass_of(&cmds[0]), Pass::SplatVelocity { splat: 0, .. }));
    assert!(matches!(pass_of(&cmds[1]), Pass::SplatDye { splat: 0, .. }));
    assert_eq!(
        pass_of(&cmds[2]),
        Pass::Divergence { velocity: Image::Velocity(0), div: Image::Divergence }
    );
    // 44 iterations leave the pressure in the image they started from.
    assert_eq!(
        pass_of(&cmds[47]),
        Pass::Gradient {
            vel_in: Image::Velocity(0),
            vel_out: Image::Velocity(1),
            pressure: Image::Pressure(0),
        }
    );
    assert_eq!(cmds[49], on_dye(Pass::AdvectDye {
        vel_in: Image::Velocity(2),
        vel_out: Image::Velocity(0),
        dye_in: Image::Dye(0),
        dye_out: Image::Dye(1),
    }));
    assert_eq!(sim.dye_view(), Image::Dye(1));
}

#[test]
fn step_with_viscosity_and_splats() {
    let mut sim = FluidSim::new(410);
    let mut cmds = Vec::new();
    sim.record_step(&mut cmds, 3, true, 8, 5);
    assert_eq!(cmds.len(), 6 + 8 + 1 + 5 + 3);
    for k in 0..3 {
        assert!(matches!(pass_of(&cmds[2 * k]), Pass::SplatVelocity { splat, .. } if splat == k));
        assert!(matches!(pass_of(&cmds[2 * k + 1]), Pass::SplatDye { splat, .. } if splat == k));
    }
    // The viscous solve runs on the velocity the splats wrote.
    assert!(matches!(pass_of(&cmds[6]), Pass::Diffuse { u_old: Image::Velocity(0), .. }));
    // Divergence is measured on its last iterate (8 iterations end in image 2).
    assert_eq!(written(&cmds[13]), Image::Velocity(2));
    assert_eq!(
        pass_of(&cmds[14]),
        Pass::Divergence { velocity: Image::Velocity(2), div: Image::Divergence }
    );
}

#[test]
fn step_with_viscosity_but_no_iterations_skips_diffusion() {
    let mut sim = FluidSim::new(410);
    let mut cmds = Vec::new();
    sim.record_step(&mut cmds, 0, true, 0, 1);
    assert_eq!(cmds.len(), 1 + 1 + 3);
    assert!(matches!(pass_of(&cmds[0]), Pass::Divergence { .. }));
}

#[test]
fn no_step_dispatch_binds_its_output_twice() {
    let mut sim = FluidSim::new(410);
    for (n, viscous, d, p) in [(2usize, true, 8u32, 44u32), (0, false, 8, 1), (1, true, 3, 7)] {
        let mut cmds = Vec::new();
        sim.record_step(&mut cmds, n, viscous, d, p);
        for c in &cmds {
            let (b, out) = bindings(c);
            for (j, img) in b.iter().enumerate() {
                if j != out {
                    assert_ne!(*img, b[out], "{c:?}");
                }
            }
        }
    }
}

#[test]
fn step_dataflow_chain() {
    let mut sim = FluidSim::new(100);
    for _ in 0..3 {
        let before = sim.dye_view();
        let mut cmds = Vec::new();
        sim.record_step(&mut cmds, 1, true, 4, 6);
        let m = 2 + 4;
        let q = 6;
        // Each pressure iteration reads what the one before wrote.
        for i in 1..q {
            assert_eq!(bindings(&cmds[m + 1 + i]).0[0], written(&cmds[m + i]));
        }
        // The gradient uses the last pressure iterate.
        assert_eq!(bindings(&cmds[m + q + 1]).0[2], written(&cmds[m + q]));
        // Advection of velocity reads the projected velocity, advection of dye
        // the advected velocity and the dye the splat coloured.
        assert_eq!(bindings(&cmds[m + q + 2]).0[0], written(&cmds[m + q + 1]));
        assert_eq!(bindings(&cmds[m + q + 3]).0[0], written(&cmds[m + q + 2]));
        assert_eq!(bindings(&cmds[m + q + 3]).0[2], before);
        assert_eq!(written(&cmds[m + q + 3]), sim.dye_view());
    }
}

#[test]
fn headless_projection_sequence() {
    let mut sim = FluidSim::new(410);
    let mut cmds = Vec::new();
    sim.record_reset(&mut cmds);
    sim.record_splat(&mut cmds, 0);
    sim.record_divergence(&mut cmds);
    sim.record_pressure(&mut cmds, 44);
    sim.record_gradient(&mut cmds);
    sim.record_divergence(&mut cmds);
    assert_eq!(cmds.len(), 8 + 2 + 1 + 44 + 1 + 1);
    assert_eq!(
        *cmds.last().unwrap(),
        on_sim(Pass::Divergence { velocity: Image::Velocity(1), div: Image::Divergence })
    );
}
