//! Tests of the wire-side components: registry binding decisions, the
//! layered-surface state machine, shared-memory buffers, and the output
//! and seat trackers.

use wlclient::area::{Origin, Size};
use wlclient::error::ClientError;
use wlclient::layer::{LayerSurface, Request, SurfaceStatus};
use wlclient::output::{OutputEvent, OutputTracker};
use wlclient::registry::{BindOutcome, Interface, WaylandManager};
use wlclient::seat::{SeatData, SeatEvent, WlSeatManager, CAPABILITY_KEYBOARD, CAPABILITY_POINTER};
use wlclient::shm::WlShmManager;

fn bound_manager() -> WaylandManager {
    let mut m = WaylandManager::new();
    assert_eq!(
        m.new_global(&"wl_compositor".to_string(), 4),
        Ok(BindOutcome::Bound(Interface::Compositor))
    );
    assert_eq!(
        m.new_global(&"wl_shm".to_string(), 1),
        Ok(BindOutcome::Bound(Interface::Shm))
    );
    assert_eq!(
        m.new_global(&"zwlr_layer_shell_v1".to_string(), 1),
        Ok(BindOutcome::Bound(Interface::LayerShell))
    );
    m
}

#[test]
fn singleton_bound_twice_is_protocol_violation() {
    let mut m = bound_manager();
    let before = m.shm_manager.clone();
    assert_eq!(
        m.new_global(&"wl_shm".to_string(), 1),
        Err(ClientError::ProtocolViolation)
    );
    // the second binding has no observable effect on the first
    assert_eq!(m.shm_manager, before);
    assert_eq!(
        m.new_global(&"wl_compositor".to_string(), 3),
        Err(ClientError::ProtocolViolation)
    );
    assert_eq!(
        m.new_global(&"zwlr_layer_shell_v1".to_string(), 2),
        Err(ClientError::ProtocolViolation)
    );
}

#[test]
fn version_below_minimum_is_rejected() {
    let mut m = WaylandManager::new();
    assert_eq!(
        m.new_global(&"wl_compositor".to_string(), 2),
        Err(ClientError::UnsupportedVersion)
    );
    assert!(!m.compositor_manager.bound);
    assert_eq!(
        m.new_global(&"wl_output".to_string(), 1),
        Err(ClientError::UnsupportedVersion)
    );
}

#[test]
fn unknown_interface_is_skipped() {
    let mut m = WaylandManager::new();
    assert_eq!(
        m.new_global(&"wl_data_device_manager".to_string(), 3),
        Ok(BindOutcome::Unknown)
    );
}

#[test]
fn extra_outputs_and_seats_are_ignored() {
    let mut m = WaylandManager::new();
    assert_eq!(
        m.new_global(&"wl_output".to_string(), 2),
        Ok(BindOutcome::Bound(Interface::Output))
    );
    assert_eq!(
        m.new_global(&"wl_output".to_string(), 2),
        Ok(BindOutcome::Ignored(Interface::Output))
    );
    assert_eq!(
        m.new_global(&"wl_seat".to_string(), 5),
        Ok(BindOutcome::Bound(Interface::Seat))
    );
    assert_eq!(
        m.new_global(&"wl_seat".to_string(), 5),
        Ok(BindOutcome::Ignored(Interface::Seat))
    );
}

#[test]
fn fresh_layer_surface_demands_initial_commit() {
    let (s, reqs) = LayerSurface::new(7);
    assert_eq!(s.status(), SurfaceStatus::Unconfigured);
    assert_eq!(s.pending(), None);
    assert_eq!(reqs, vec![Request::Commit]);
}

#[test]
fn set_buffer_while_unconfigured_is_deferred() {
    let (mut s, _) = LayerSurface::new(0);
    let (reqs, replaced) = s.set_buffer(10, Origin { x: 3, y: 4 }).unwrap();
    // nothing goes on the wire before the first configure event
    assert!(reqs.is_empty());
    assert!(!replaced);
    assert_eq!(s.status(), SurfaceStatus::Unconfigured);
    assert!(s.pending().is_some());
}

#[test]
fn configure_acks_serial_and_attaches_deferred_buffer() {
    let (mut s, _) = LayerSurface::new(0);
    s.set_buffer(10, Origin { x: 0, y: 0 }).unwrap();
    let reqs = s.handle_configure(1, 800, 600).unwrap();
    assert_eq!(
        reqs,
        vec![
            Request::AckConfigure { serial: 1 },
            Request::Attach { buffer: 10, x: 0, y: 0 },
            Request::Commit,
        ]
    );
    assert_eq!(s.status(), SurfaceStatus::Configured { serial: 1 });
    assert_eq!(s.pending(), None);
}

#[test]
fn configure_without_pending_buffer_only_acks() {
    let (mut s, _) = LayerSurface::new(0);
    let reqs = s.handle_configure(9, 100, 100).unwrap();
    assert_eq!(reqs, vec![Request::AckConfigure { serial: 9 }]);
    assert_eq!(s.status(), SurfaceStatus::Configured { serial: 9 });
}

#[test]
fn second_set_buffer_before_commit_replaces_first() {
    let (mut s, _) = LayerSurface::new(0);
    let (_, replaced1) = s.set_buffer(10, Origin { x: 0, y: 0 }).unwrap();
    assert!(!replaced1);
    // the first buffer is discarded with a warning to log
    let (reqs, replaced2) = s.set_buffer(11, Origin { x: 0, y: 0 }).unwrap();
    assert!(reqs.is_empty());
    assert!(replaced2);
    // only the second buffer is ultimately attached
    let reqs = s.handle_configure(5, 0, 0).unwrap();
    assert_eq!(
        reqs,
        vec![
            Request::AckConfigure { serial: 5 },
            Request::Attach { buffer: 11, x: 0, y: 0 },
            Request::Commit,
        ]
    );
}

#[test]
fn configured_set_buffer_attaches_immediately() {
    let (mut s, _) = LayerSurface::new(0);
    s.handle_configure(1, 0, 0).unwrap();
    let (reqs, replaced) = s.set_buffer(42, Origin { x: -5, y: 6 }).unwrap();
    assert!(!replaced);
    assert_eq!(reqs, vec![Request::Attach { buffer: 42, x: -5, y: 6 }]);
    assert_eq!(s.pending(), None);
}

#[test]
fn set_size_and_commit_forward_requests() {
    let (mut s, _) = LayerSurface::new(0);
    let reqs = s.set_size(Size { width: 800, height: 600 }).unwrap();
    assert_eq!(reqs, vec![Request::SetSize { width: 800, height: 600 }]);
    let reqs = s.commit().unwrap();
    assert_eq!(reqs, vec![Request::Commit]);
}

#[test]
fn closed_surface_rejects_later_operations() {
    let (mut s, _) = LayerSurface::new(0);
    assert_eq!(s.handle_closed(), Ok(vec![]));
    assert_eq!(s.status(), SurfaceStatus::Closed);
    assert_eq!(
        s.set_buffer(1, Origin { x: 0, y: 0 }),
        Err(ClientError::UnimplementedFeature)
    );
    assert_eq!(s.commit(), Err(ClientError::UnimplementedFeature));
    assert_eq!(
        s.handle_configure(2, 0, 0),
        Err(ClientError::UnimplementedFeature)
    );
    assert_eq!(s.handle_closed(), Err(ClientError::UnimplementedFeature));
}

#[test]
fn create_buffer_allocates_exact_byte_length() {
    let mut shm = WlShmManager::new();
    shm.new_global().unwrap();
    let b = shm.create_buffer(Size { width: 800, height: 600 }).unwrap();
    assert_eq!(b.width, 800);
    assert_eq!(b.height, 600);
    assert_eq!(b.bytes.len(), 800 * 600 * 4);
    assert!(b.bytes.iter().all(|&x| x == 0));
    let b2 = shm.create_buffer(Size { width: 1, height: 1 }).unwrap();
    assert_ne!(b.id, b2.id);
    assert_eq!(b2.bytes.len(), 4);
}

#[test]
fn create_buffer_without_global_is_unsupported() {
    let mut shm = WlShmManager::new();
    assert_eq!(
        shm.create_buffer(Size { width: 1, height: 1 }),
        Err(ClientError::UnsupportedVersion)
    );
}

#[test]
fn create_buffer_overflowing_pool_is_resource_exhaustion() {
    let mut shm = WlShmManager::new();
    shm.new_global().unwrap();
    // 65536 * 65536 * 4 bytes would not fit the signed 32-bit pool size
    assert_eq!(
        shm.create_buffer(Size { width: 65536, height: 65536 }),
        Err(ClientError::ResourceExhaustion)
    );
}

#[test]
fn buffer_write_replaces_contents() {
    let mut shm = WlShmManager::new();
    shm.new_global().unwrap();
    let mut b = shm.create_buffer(Size { width: 2, height: 1 }).unwrap();
    let data = [1u8, 2, 3, 4, 5, 6, 7, 8];
    b.write(&data);
    assert_eq!(b.bytes, data.to_vec());
}

#[test]
fn output_publishes_only_on_done() {
    let mut t = OutputTracker::new();
    assert!(matches!(
        t.apply_event(OutputEvent::Geometry {
            make: "ACME".to_string(),
            model: "HD-1".to_string(),
        }),
        Ok(None)
    ));
    assert!(matches!(
        t.apply_event(OutputEvent::Mode { current: true, width: 1920, height: 1080 }),
        Ok(None)
    ));
    // nothing published before the synchronization event
    assert!(t.published.is_none());
    let snapshot = t.apply_event(OutputEvent::Done).unwrap().unwrap();
    assert_eq!(snapshot.name(), "ACME (HD-1)");
    assert_eq!(snapshot.resolution(), (1920, 1080));
    assert!(t.published.is_some());
}

#[test]
fn output_event_order_does_not_matter() {
    let mut t = OutputTracker::new();
    t.apply_event(OutputEvent::Mode { current: true, width: 640, height: 480 })
        .unwrap();
    t.apply_event(OutputEvent::Geometry {
        make: "A".to_string(),
        model: "B".to_string(),
    })
    .unwrap();
    let snapshot = t.apply_event(OutputEvent::Done).unwrap().unwrap();
    assert_eq!(snapshot.name(), "A (B)");
    assert_eq!(snapshot.resolution(), (640, 480));
}

#[test]
fn output_ignores_modes_not_flagged_current() {
    let mut t = OutputTracker::new();
    t.apply_event(OutputEvent::Mode { current: true, width: 800, height: 600 })
        .unwrap();
    t.apply_event(OutputEvent::Mode { current: false, width: 320, height: 200 })
        .unwrap();
    let snapshot = t.apply_event(OutputEvent::Done).unwrap().unwrap();
    assert_eq!(snapshot.resolution(), (800, 600));
}

#[test]
fn output_scale_other_than_one_is_unimplemented() {
    let mut t = OutputTracker::new();
    assert!(matches!(t.apply_event(OutputEvent::Scale { factor: 1 }), Ok(None)));
    assert!(matches!(
        t.apply_event(OutputEvent::Scale { factor: 2 }),
        Err(ClientError::UnimplementedFeature)
    ));
    // the failed event left the tracker unchanged
    assert!(t.published.is_none());
}

#[test]
fn seat_accumulates_capabilities_and_name() {
    let mut s = SeatData::new();
    assert_eq!(s.capabilities, 0);
    s.apply_event(SeatEvent::Capabilities {
        capabilities: CAPABILITY_POINTER | CAPABILITY_KEYBOARD,
    });
    s.apply_event(SeatEvent::Name { name: "seat0".to_string() });
    assert_eq!(s.capabilities, 3);
    assert_eq!(s.name, "seat0");
    assert!(s.has_capability(CAPABILITY_POINTER));
    assert!(s.has_capability(CAPABILITY_KEYBOARD));
    assert!(!s.has_capability(4));
}

#[test]
fn seat_manager_routes_events_to_accepted_seat() {
    let mut m = WlSeatManager::new();
    assert_eq!(
        m.apply_event(SeatEvent::Name { name: "x".to_string() }),
        Err(ClientError::ProtocolViolation)
    );
    assert!(m.new_global());
    assert!(!m.new_global());
    m.apply_event(SeatEvent::Capabilities { capabilities: 1 }).unwrap();
    assert_eq!(m.seat.as_ref().unwrap().capabilities, 1);
}

#[test]
fn error_descriptions_name_each_failure() {
    assert_eq!(ClientError::ProtocolViolation.describe(), "protocol violation");
    assert_eq!(
        ClientError::UnsupportedVersion.describe(),
        "unsupported server version"
    );
    assert_eq!(ClientError::ResourceExhaustion.describe(), "resource exhaustion");
    assert_eq!(ClientError::InvalidGeometry.describe(), "invalid geometry");
    assert_eq!(
        ClientError::UnimplementedFeature.describe(),
        "unimplemented feature"
    );
}
