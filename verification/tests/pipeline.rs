//! Tests of the pixel pipeline: drawin geometry updates, buffer
//! allocation, refresh and visibility.

use wlclient::area::{Area, Margin, Origin, Size};
use wlclient::drawable::Signal;
use wlclient::error::ClientError;
use wlclient::layer::{Request, SurfaceStatus};
use wlclient::registry::{BindOutcome, Interface, WaylandManager};
use wlclient::drawin::Drawin;

fn area(x: i32, y: i32, width: u32, height: u32) -> Area {
    Area { origin: Origin { x, y }, size: Size { width, height } }
}

fn ready_manager() -> WaylandManager {
    let mut m = WaylandManager::new();
    assert_eq!(
        m.new_global(&"wl_compositor".to_string(), 3),
        Ok(BindOutcome::Bound(Interface::Compositor))
    );
    assert_eq!(
        m.new_global(&"wl_shm".to_string(), 1),
        Ok(BindOutcome::Bound(Interface::Shm))
    );
    assert_eq!(
        m.new_global(&"zwlr_layer_shell_v1".to_string(), 1),
        Ok(BindOutcome::Bound(Interface::LayerShell))
    );
    m
}

#[test]
fn drawin_without_globals_cannot_be_created() {
    let mut m = WaylandManager::new();
    assert!(matches!(
        Drawin::new(&mut m),
        Err(ClientError::UnsupportedVersion)
    ));
}

#[test]
fn surface_lifecycle_with_geometry() {
    // create a surface, set geometry to width=800, height=600, origin (0,0)
    let mut m = ready_manager();
    let (mut d, reqs) = Drawin::new(&mut m).unwrap();
    assert_eq!(reqs, vec![Request::Commit]);

    let out = d.set_geometry(&mut m.shm_manager, area(0, 0, 800, 600)).unwrap();
    // a pixel buffer of 800 * 600 * 4 bytes is allocated
    let buffer = d.drawable.buffer.as_ref().unwrap();
    assert_eq!(buffer.bytes.len(), 800 * 600 * 4);
    let buffer_id = buffer.id;
    assert_eq!(
        out.requests,
        vec![Request::SetSize { width: 800, height: 600 }]
    );

    // flushing queues the attach: the surface is not configured yet
    let reqs = d.refresh().unwrap();
    assert_eq!(
        reqs,
        vec![Request::SetSize { width: 800, height: 600 }, Request::Commit]
    );

    // upon the first configure event the controller transitions to
    // Configured(1), acknowledges serial 1, attaches at (0,0) and commits
    let ls = d.surface.as_mut().unwrap();
    let reqs = ls.handle_configure(1, 800, 600).unwrap();
    assert_eq!(
        reqs,
        vec![
            Request::AckConfigure { serial: 1 },
            Request::Attach { buffer: buffer_id, x: 0, y: 0 },
            Request::Commit,
        ]
    );
    assert_eq!(ls.status(), SurfaceStatus::Configured { serial: 1 });
}

#[test]
fn zero_width_geometry_allocates_nothing() {
    // set geometry with width=0: no buffer (re)allocation occurs and the
    // surface remains without an attached buffer
    let mut m = ready_manager();
    let (mut d, _) = Drawin::new(&mut m).unwrap();
    assert!(matches!(
        d.set_geometry(&mut m.shm_manager, area(0, 0, 0, 600)),
        Err(ClientError::InvalidGeometry)
    ));
    assert!(d.drawable.buffer.is_none());

    // a partial resize carrying width=0 keeps the previous extent
    d.set_geometry(&mut m.shm_manager, area(0, 0, 100, 100)).unwrap();
    let id_before = d.drawable.buffer.as_ref().unwrap().id;
    let out = d.resize(&mut m.shm_manager, area(0, 0, 0, 100)).unwrap();
    assert!(out.signals.is_empty());
    assert_eq!(d.drawable.buffer.as_ref().unwrap().id, id_before);
    assert_eq!(d.get_geometry().size.width, 100);

    // no attach request was ever sent: the deferred slot stays empty
    assert!(d.surface.as_ref().unwrap().pending().is_none());
}

#[test]
fn identical_resize_changes_nothing() {
    // resize from 800x600 to 800x600: no reallocation and no width,
    // height or geometry change notifications
    let mut m = ready_manager();
    let (mut d, _) = Drawin::new(&mut m).unwrap();
    d.set_geometry(&mut m.shm_manager, area(0, 0, 800, 600)).unwrap();
    let id_before = d.drawable.buffer.as_ref().unwrap().id;
    let out = d.resize(&mut m.shm_manager, area(0, 0, 800, 600)).unwrap();
    assert!(out.signals.is_empty());
    assert!(out.drawable_signals.is_empty());
    assert!(out.requests.is_empty());
    assert_eq!(d.drawable.buffer.as_ref().unwrap().id, id_before);
}

#[test]
fn resize_emits_only_changed_fields() {
    let mut m = ready_manager();
    let (mut d, _) = Drawin::new(&mut m).unwrap();
    d.set_geometry(&mut m.shm_manager, area(0, 0, 800, 600)).unwrap();
    let out = d.resize(&mut m.shm_manager, area(10, 0, 800, 600)).unwrap();
    assert_eq!(out.signals, vec![Signal::X, Signal::Geometry]);
    let out = d
        .resize(&mut m.shm_manager, area(10, 0, 1024, 768))
        .unwrap();
    assert_eq!(
        out.signals,
        vec![Signal::Width, Signal::Height, Signal::Geometry]
    );
}

#[test]
fn origin_only_change_never_reallocates() {
    let mut m = ready_manager();
    let (mut d, _) = Drawin::new(&mut m).unwrap();
    d.set_geometry(&mut m.shm_manager, area(0, 0, 64, 64)).unwrap();
    let id_before = d.drawable.buffer.as_ref().unwrap().id;
    let out = d.resize(&mut m.shm_manager, area(5, 9, 64, 64)).unwrap();
    assert_eq!(out.signals, vec![Signal::X, Signal::Y, Signal::Geometry]);
    assert_eq!(d.drawable.buffer.as_ref().unwrap().id, id_before);
}

#[test]
fn refresh_is_idempotent() {
    // two refreshes with no intervening change produce at most one attach
    let mut m = ready_manager();
    let (mut d, _) = Drawin::new(&mut m).unwrap();
    d.set_geometry(&mut m.shm_manager, area(0, 0, 4, 4)).unwrap();
    d.surface.as_mut().unwrap().handle_configure(1, 4, 4).unwrap();

    let first = d.refresh().unwrap();
    let attaches = |reqs: &Vec<Request>| {
        reqs.iter()
            .filter(|r| matches!(r, Request::Attach { .. }))
            .count()
    };
    assert_eq!(attaches(&first), 1);

    let second = d.refresh().unwrap();
    assert!(second.is_empty());
}

#[test]
fn configured_refresh_attaches_before_sizing() {
    let mut m = ready_manager();
    let (mut d, _) = Drawin::new(&mut m).unwrap();
    d.set_geometry(&mut m.shm_manager, area(2, 3, 4, 4)).unwrap();
    d.surface.as_mut().unwrap().handle_configure(1, 4, 4).unwrap();
    let buffer_id = d.drawable.buffer.as_ref().unwrap().id;
    let reqs = d.refresh().unwrap();
    // the attach leads, then the desired size, then the commit
    assert_eq!(
        reqs,
        vec![
            Request::Attach { buffer: buffer_id, x: 2, y: 3 },
            Request::SetSize { width: 4, height: 4 },
            Request::Commit,
        ]
    );
}

#[test]
fn origin_move_invalidates_refresh() {
    let mut m = ready_manager();
    let (mut d, _) = Drawin::new(&mut m).unwrap();
    d.set_geometry(&mut m.shm_manager, area(0, 0, 4, 4)).unwrap();
    d.surface.as_mut().unwrap().handle_configure(1, 4, 4).unwrap();
    d.refresh().unwrap();

    // an origin-only move is a geometry change: the next refresh must
    // re-attach at the new origin
    let out = d.resize(&mut m.shm_manager, area(7, 8, 4, 4)).unwrap();
    assert_eq!(out.signals, vec![Signal::X, Signal::Y, Signal::Geometry]);
    let buffer_id = d.drawable.buffer.as_ref().unwrap().id;
    let reqs = d.refresh().unwrap();
    assert_eq!(
        reqs,
        vec![
            Request::Attach { buffer: buffer_id, x: 7, y: 8 },
            Request::SetSize { width: 4, height: 4 },
            Request::Commit,
        ]
    );
}

#[test]
fn fresh_content_invalidates_refresh() {
    let mut m = ready_manager();
    let (mut d, _) = Drawin::new(&mut m).unwrap();
    d.set_geometry(&mut m.shm_manager, area(0, 0, 2, 2)).unwrap();
    d.surface.as_mut().unwrap().handle_configure(1, 2, 2).unwrap();
    d.refresh().unwrap();

    let pixels = [9u8; 16];
    d.drawable.set_content(&pixels).unwrap();
    let reqs = d.refresh().unwrap();
    assert!(reqs.iter().any(|r| matches!(r, Request::Attach { .. })));
    // the flushed buffer holds exactly the rendered pixels
    assert_eq!(d.drawable.buffer.as_ref().unwrap().bytes, pixels.to_vec());
}

#[test]
fn content_of_wrong_length_is_rejected() {
    let mut m = ready_manager();
    let (mut d, _) = Drawin::new(&mut m).unwrap();
    d.set_geometry(&mut m.shm_manager, area(0, 0, 2, 2)).unwrap();
    assert_eq!(
        d.drawable.set_content(&[0u8; 3]),
        Err(ClientError::InvalidGeometry)
    );
    // without a visible surface there is nothing to render into
    let (mut bare, _) = Drawin::new(&mut m).unwrap();
    assert_eq!(
        bare.drawable.set_content(&[0u8; 4]),
        Err(ClientError::InvalidGeometry)
    );
}

#[test]
fn visibility_toggles_announce_and_reapply_geometry() {
    let mut m = ready_manager();
    let (mut d, _) = Drawin::new(&mut m).unwrap();
    assert!(!d.get_visible());

    // an unchanged value does nothing
    let out = d.set_visible(&mut m.shm_manager, false).unwrap();
    assert!(out.signals.is_empty());

    d.resize(&mut m.shm_manager, area(0, 0, 32, 32)).unwrap();
    let out = d.set_visible(&mut m.shm_manager, true).unwrap();
    assert!(d.get_visible());
    assert_eq!(out.signals, vec![Signal::Visible]);
    assert_eq!(out.requests, vec![Request::SetSize { width: 32, height: 32 }]);
}

#[test]
fn struts_are_stored_without_effect() {
    let mut m = ready_manager();
    let (mut d, _) = Drawin::new(&mut m).unwrap();
    assert_eq!(d.get_struts(), Margin::default());
    let struts = Margin { top: 10, right: 0, bottom: 0, left: 5 };
    d.set_struts(struts);
    assert_eq!(d.get_struts(), struts);
    // storing struts neither resizes nor notifies
    assert!(d.drawable.buffer.is_none());
}

#[test]
fn resize_to_closed_surface_is_unimplemented() {
    let mut m = ready_manager();
    let (mut d, _) = Drawin::new(&mut m).unwrap();
    d.surface.as_mut().unwrap().handle_closed().unwrap();
    assert!(matches!(
        d.set_geometry(&mut m.shm_manager, area(0, 0, 8, 8)),
        Err(ClientError::UnimplementedFeature)
    ));
}

#[test]
fn buffer_creation_through_manager_respects_validation() {
    let mut m = WaylandManager::new();
    assert_eq!(
        m.create_buffer(Size { width: 1, height: 1 }),
        Err(ClientError::UnsupportedVersion)
    );
    let mut m = ready_manager();
    let b = m.create_buffer(Size { width: 3, height: 5 }).unwrap();
    assert_eq!(b.bytes.len(), 3 * 5 * 4);
}
