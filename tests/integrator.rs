use raytracer::integrator::{trace, Path, Radiance, Step, Surface};

#[test]
fn spent_budget_is_black_even_on_a_hit() {
    let events = vec![Surface::Scattered, Surface::Miss];
    assert_eq!(trace(0, &events), Some((Radiance::Black, 0)));
    assert_eq!(trace(-3, &events), Some((Radiance::Black, 0)));
    assert_eq!(trace(0, &vec![]), Some((Radiance::Black, 0)));
}

#[test]
fn spent_budget_path_is_not_live() {
    assert!(!Path::new(0).live());
    assert!(!Path::new(-1).live());
    assert!(Path::new(1).live());
}

#[test]
fn miss_ends_in_sky_unattenuated() {
    assert_eq!(trace(5, &vec![Surface::Miss]), Some((Radiance::Sky, 0)));
    assert_eq!(
        trace(1, &vec![Surface::Miss, Surface::Scattered]),
        Some((Radiance::Sky, 0))
    );
}

#[test]
fn scatter_then_miss_collects_attenuations() {
    let events = vec![Surface::Scattered, Surface::Scattered, Surface::Miss];
    assert_eq!(trace(3, &events), Some((Radiance::Sky, 2)));
    assert_eq!(trace(10, &events), Some((Radiance::Sky, 2)));
}

#[test]
fn budget_runs_out_after_bounces() {
    let events = vec![Surface::Scattered, Surface::Scattered, Surface::Miss];
    assert_eq!(trace(2, &events), Some((Radiance::Black, 2)));
    assert_eq!(trace(1, &events), Some((Radiance::Black, 1)));
}

#[test]
fn absorbed_and_bare_hits_are_black() {
    assert_eq!(
        trace(4, &vec![Surface::Scattered, Surface::Absorbed]),
        Some((Radiance::Black, 1))
    );
    assert_eq!(trace(4, &vec![Surface::Bare]), Some((Radiance::Black, 0)));
}

#[test]
fn too_few_events_is_none() {
    assert_eq!(trace(1, &vec![]), None);
    assert_eq!(trace(3, &vec![Surface::Scattered]), None);
}

#[test]
fn record_steps_the_budget() {
    let mut p = Path::new(2);
    assert_eq!(p.record(Surface::Scattered), Step::Bounce);
    assert_eq!((p.remaining, p.bounces), (1, 1));
    assert!(p.live());
    assert_eq!(p.record(Surface::Scattered), Step::Bounce);
    assert!(!p.live());
    assert_eq!(p.bounces, 2);
    let mut q = Path::new(2);
    assert_eq!(q.record(Surface::Miss), Step::Stop(Radiance::Sky));
    assert_eq!(q.record(Surface::Absorbed), Step::Stop(Radiance::Black));
    assert_eq!((q.remaining, q.bounces), (2, 0));
}
