use maplibre_native::backend::{backend_name, conflict_warning, select_backend, RenderingBackend};

#[test]
fn single_flag_wins_metal() {
    let sel = select_backend(false, true, false, false);
    assert!(matches!(sel.backend, RenderingBackend::Metal));
    assert!(!sel.conflict);
    assert!(sel.discarded.is_empty());
}

#[test]
fn single_flag_wins_opengl() {
    let sel = select_backend(true, false, false, true);
    assert!(matches!(sel.backend, RenderingBackend::OpenGL));
    assert!(!sel.conflict);
    assert!(sel.discarded.is_empty());
}

#[test]
fn single_flag_wins_vulkan() {
    let sel = select_backend(false, false, true, true);
    assert!(matches!(sel.backend, RenderingBackend::Vulkan));
    assert!(!sel.conflict);
    assert!(sel.discarded.is_empty());
}

#[test]
fn no_flag_defaults_to_metal_on_apple() {
    let sel = select_backend(false, false, false, true);
    assert!(matches!(sel.backend, RenderingBackend::Metal));
    assert!(!sel.conflict);
    assert!(sel.discarded.is_empty());
}

#[test]
fn no_flag_defaults_to_vulkan_elsewhere() {
    let sel = select_backend(false, false, false, false);
    assert!(matches!(sel.backend, RenderingBackend::Vulkan));
    assert!(!sel.conflict);
    assert!(sel.discarded.is_empty());
}

#[test]
fn conflict_prefers_opengl() {
    let sel = select_backend(true, true, true, false);
    assert!(matches!(sel.backend, RenderingBackend::OpenGL));
    assert!(sel.conflict);
    assert_eq!(sel.discarded.len(), 2);
    assert!(matches!(sel.discarded[0], RenderingBackend::Metal));
    assert!(matches!(sel.discarded[1], RenderingBackend::Vulkan));
}

#[test]
fn conflict_without_opengl_takes_platform_default() {
    let sel = select_backend(false, true, true, true);
    assert!(matches!(sel.backend, RenderingBackend::Metal));
    assert!(sel.conflict);
    assert_eq!(sel.discarded.len(), 1);
    assert!(matches!(sel.discarded[0], RenderingBackend::Vulkan));

    let sel = select_backend(false, true, true, false);
    assert!(matches!(sel.backend, RenderingBackend::Vulkan));
    assert!(sel.conflict);
    assert_eq!(sel.discarded.len(), 1);
    assert!(matches!(sel.discarded[0], RenderingBackend::Metal));
}

#[test]
fn selection_is_deterministic() {
    for o in [false, true] {
        for m in [false, true] {
            for v in [false, true] {
                for a in [false, true] {
                    let s1 = select_backend(o, m, v, a);
                    let s2 = select_backend(o, m, v, a);
                    assert_eq!(backend_name(s1.backend), backend_name(s2.backend));
                    assert_eq!(s1.conflict, s2.conflict);
                    assert_eq!(s1.discarded.len(), s2.discarded.len());
                }
            }
        }
    }
}

#[test]
fn warning_only_on_conflict() {
    assert!(conflict_warning(false, true, false, false).is_none());
    assert!(conflict_warning(false, false, false, true).is_none());
    let w = conflict_warning(true, true, true, false).unwrap();
    assert_eq!(
        w,
        "rendering backend flags are mutually exclusive; discarding 'metal', 'vulkan'; using 'opengl'"
    );
}

#[test]
fn warning_names_the_fallback() {
    let w = conflict_warning(false, true, true, true).unwrap();
    assert_eq!(
        w,
        "rendering backend flags are mutually exclusive; discarding 'vulkan'; using 'metal'"
    );
}

#[test]
fn exactly_one_warning_exactly_on_conflict() {
    for o in [false, true] {
        for m in [false, true] {
            for v in [false, true] {
                for a in [false, true] {
                    let flags = u32::from(o) + u32::from(m) + u32::from(v);
                    let warning = conflict_warning(o, m, v, a);
                    assert_eq!(warning.is_some(), flags >= 2);
                    let sel = select_backend(o, m, v, a);
                    assert_eq!(sel.conflict, flags >= 2);
                    assert!(!sel
                        .discarded
                        .iter()
                        .any(|d| backend_name(*d) == backend_name(sel.backend)));
                }
            }
        }
    }
}

#[test]
fn backend_names() {
    assert_eq!(backend_name(RenderingBackend::Metal), "metal");
    assert_eq!(backend_name(RenderingBackend::OpenGL), "opengl");
    assert_eq!(backend_name(RenderingBackend::Vulkan), "vulkan");
}
