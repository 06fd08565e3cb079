//! Rendering-backend variant selection: exactly one backend is chosen from
//! three independent capability flags, with a documented precedence and a
//! single warning when the flags conflict.

use vstd::prelude::*;

use crate::text::append_str;

verus! {

/// The graphics API the native library is built to target. Exactly one is
/// active per build.
#[derive(Clone, Copy, PartialEq, Eq, Structural, Debug)]
pub enum RenderingBackend {
    Metal,
    OpenGL,
    Vulkan,
}

pub open spec fn spec_backend_name(b: RenderingBackend) -> Seq<char> {
    match b {
        RenderingBackend::Metal => "metal"@,
        RenderingBackend::OpenGL => "opengl"@,
        RenderingBackend::Vulkan => "vulkan"@,
    }
}

/// The lower-case name of the backend, as release assets and the build
/// system spell it.
pub fn backend_name(b: RenderingBackend) -> (r: &'static str)
    ensures
        r@ == spec_backend_name(b),
{
    match b {
        RenderingBackend::Metal => "metal",
        RenderingBackend::OpenGL => "opengl",
        RenderingBackend::Vulkan => "vulkan",
    }
}

/// How many capability flags are set.
pub open spec fn spec_flag_count(opengl: bool, metal: bool, vulkan: bool) -> int {
    (if opengl {
        1int
    } else {
        0int
    }) + (if metal {
        1int
    } else {
        0int
    }) + (if vulkan {
        1int
    } else {
        0int
    })
}

/// The platform default: Metal on Apple platforms, Vulkan elsewhere.
pub open spec fn spec_platform_default(apple: bool) -> RenderingBackend {
    if apple {
        RenderingBackend::Metal
    } else {
        RenderingBackend::Vulkan
    }
}

/// The backend the build uses, given the three capability flags and the
/// platform family. A single set flag wins; with none set the platform
/// default is used; with several set, OpenGL wins when it is among them,
/// else the platform default is used.
pub open spec fn spec_select_backend(
    opengl: bool,
    metal: bool,
    vulkan: bool,
    apple: bool,
) -> RenderingBackend {
    if spec_flag_count(opengl, metal, vulkan) == 1 {
        if metal {
            RenderingBackend::Metal
        } else if vulkan {
            RenderingBackend::Vulkan
        } else {
            RenderingBackend::OpenGL
        }
    } else if spec_flag_count(opengl, metal, vulkan) == 0 {
        spec_platform_default(apple)
    } else if opengl {
        RenderingBackend::OpenGL
    } else {
        spec_platform_default(apple)
    }
}

/// The requested backends that the selection discards, in the fixed order
/// OpenGL, Metal, Vulkan; empty unless the flags conflict.
pub open spec fn spec_discarded_backends(
    opengl: bool,
    metal: bool,
    vulkan: bool,
    apple: bool,
) -> Seq<RenderingBackend> {
    if spec_flag_count(opengl, metal, vulkan) < 2 {
        Seq::empty()
    } else {
        let chosen = spec_select_backend(opengl, metal, vulkan, apple);
        (if opengl && chosen != RenderingBackend::OpenGL {
            seq![RenderingBackend::OpenGL]
        } else {
            Seq::empty()
        }) + (if metal && chosen != RenderingBackend::Metal {
            seq![RenderingBackend::Metal]
        } else {
            Seq::empty()
        }) + (if vulkan && chosen != RenderingBackend::Vulkan {
            seq![RenderingBackend::Vulkan]
        } else {
            Seq::empty()
        })
    }
}

/// The outcome of variant selection: the chosen backend, whether the flags
/// conflicted, and which requested backends the conflict discarded.
#[derive(Debug)]
pub struct BackendSelection {
    pub backend: RenderingBackend,
    pub conflict: bool,
    pub discarded: Vec<RenderingBackend>,
}

/// Chooses the rendering backend from the capability flags; total, never
/// fails, and a function of its arguments alone.
pub fn select_backend(opengl: bool, metal: bool, vulkan: bool, apple: bool) -> (r:
    BackendSelection)
    ensures
        r.backend == spec_select_backend(opengl, metal, vulkan, apple),
        r.conflict == (spec_flag_count(opengl, metal, vulkan) >= 2),
        r.discarded@ == spec_discarded_backends(opengl, metal, vulkan, apple),
{
    let count: u32 = (if opengl {
        1u32
    } else {
        0u32
    }) + (if metal {
        1u32
    } else {
        0u32
    }) + (if vulkan {
        1u32
    } else {
        0u32
    });
    let backend = if count == 1 {
        if metal {
            RenderingBackend::Metal
        } else if vulkan {
            RenderingBackend::Vulkan
        } else {
            RenderingBackend::OpenGL
        }
    } else if count == 0 {
        if apple {
            RenderingBackend::Metal
        } else {
            RenderingBackend::Vulkan
        }
    } else if opengl {
        RenderingBackend::OpenGL
    } else if apple {
        RenderingBackend::Metal
    } else {
        RenderingBackend::Vulkan
    };
    let conflict = count >= 2;
    let mut discarded: Vec<RenderingBackend> = Vec::new();
    if conflict {
        if opengl && !matches!(backend, RenderingBackend::OpenGL) {
            discarded.push(RenderingBackend::OpenGL);
        }
        if metal && !matches!(backend, RenderingBackend::Metal) {
            discarded.push(RenderingBackend::Metal);
        }
        if vulkan && !matches!(backend, RenderingBackend::Vulkan) {
            discarded.push(RenderingBackend::Vulkan);
        }
    }
    proof {
        assert(discarded@ =~= spec_discarded_backends(opengl, metal, vulkan, apple));
    }
    BackendSelection { backend, conflict, discarded }
}

/// The discarded backends as a quoted, comma-separated list.
pub open spec fn spec_quoted_list(bs: Seq<RenderingBackend>) -> Seq<char>
    decreases bs.len(),
{
    if bs.len() == 0 {
        Seq::empty()
    } else if bs.len() == 1 {
        "'"@ + spec_backend_name(bs[0]) + "'"@
    } else {
        "'"@ + spec_backend_name(bs[0]) + "'"@ + ", "@ + spec_quoted_list(bs.skip(1))
    }
}

/// The one warning a conflicting flag combination produces: it names the
/// discarded options and the chosen fallback.
pub open spec fn spec_conflict_warning(
    opengl: bool,
    metal: bool,
    vulkan: bool,
    apple: bool,
) -> Seq<char> {
    "rendering backend flags are mutually exclusive; discarding "@ + spec_quoted_list(
        spec_discarded_backends(opengl, metal, vulkan, apple),
    ) + "; using '"@ + spec_backend_name(spec_select_backend(opengl, metal, vulkan, apple))
        + "'"@
}

fn quoted_list(bs: &Vec<RenderingBackend>) -> (r: String)
    ensures
        r@ == spec_quoted_list(bs@),
{
    let mut out = String::new();
    let mut i: usize = 0;
    proof {
        assert(bs@.skip(0) =~= bs@);
        assert(out@ + spec_quoted_list(bs@) =~= spec_quoted_list(bs@));
    }
    while i < bs.len()
        invariant
            i <= bs@.len(),
            out@ + spec_quoted_list(bs@.skip(i as int)) == spec_quoted_list(bs@),
        decreases bs@.len() - i,
    {
        append_str(&mut out, "'");
        append_str(&mut out, backend_name(bs[i]));
        append_str(&mut out, "'");
        if i + 1 < bs.len() {
            append_str(&mut out, ", ");
        }
        proof {
            let t = bs@.skip(i as int);
            assert(t[0] == bs@[i as int]);
            assert(t.skip(1) =~= bs@.skip(i + 1));
            if i + 1 < bs@.len() {
                assert(out@ + spec_quoted_list(bs@.skip(i + 1)) =~= spec_quoted_list(bs@));
            } else {
                assert(bs@.skip(i + 1) =~= Seq::<RenderingBackend>::empty());
                assert(out@ + spec_quoted_list(bs@.skip(i + 1)) =~= spec_quoted_list(bs@));
            }
        }
        i = i + 1;
    }
    proof {
        assert(bs@.skip(i as int) =~= Seq::<RenderingBackend>::empty());
        assert(out@ + spec_quoted_list(bs@.skip(i as int)) =~= out@);
    }
    out
}

/// The non-fatal warning for a selection, present exactly when the flags
/// conflicted.
pub fn conflict_warning(opengl: bool, metal: bool, vulkan: bool, apple: bool) -> (r: Option<
    String,
>)
    ensures
        r.is_some() == (spec_flag_count(opengl, metal, vulkan) >= 2),
        r.is_some() ==> r.unwrap()@ == spec_conflict_warning(opengl, metal, vulkan, apple),
{
    let sel = select_backend(opengl, metal, vulkan, apple);
    if !sel.conflict {
        return None;
    }
    let mut out = String::new();
    append_str(&mut out, "rendering backend flags are mutually exclusive; discarding ");
    let list = quoted_list(&sel.discarded);
    append_str(&mut out, list.as_str());
    append_str(&mut out, "; using '");
    append_str(&mut out, backend_name(sel.backend));
    append_str(&mut out, "'");
    proof {
        assert(out@ =~= spec_conflict_warning(opengl, metal, vulkan, apple));
    }
    Some(out)
}

/// With zero or one flag set the selection is the set flag itself or the
/// platform default, no conflict is reported and nothing is discarded; with
/// two or more set, the winner is OpenGL when requested and the platform
/// default otherwise, a conflict is reported, and the discarded list names
/// exactly the other requested backends, never the winner.
pub proof fn lemma_selector_precedence(opengl: bool, metal: bool, vulkan: bool, apple: bool)
    ensures
        spec_flag_count(opengl, metal, vulkan) <= 1 ==> spec_discarded_backends(
            opengl,
            metal,
            vulkan,
            apple,
        ) =~= Seq::<RenderingBackend>::empty(),
        spec_flag_count(opengl, metal, vulkan) == 0 ==> spec_select_backend(
            opengl,
            metal,
            vulkan,
            apple,
        ) == spec_platform_default(apple),
        spec_flag_count(opengl, metal, vulkan) == 1 && opengl ==> spec_select_backend(
            opengl,
            metal,
            vulkan,
            apple,
        ) == RenderingBackend::OpenGL,
        spec_flag_count(opengl, metal, vulkan) == 1 && metal ==> spec_select_backend(
            opengl,
            metal,
            vulkan,
            apple,
        ) == RenderingBackend::Metal,
        spec_flag_count(opengl, metal, vulkan) == 1 && vulkan ==> spec_select_backend(
            opengl,
            metal,
            vulkan,
            apple,
        ) == RenderingBackend::Vulkan,
        spec_flag_count(opengl, metal, vulkan) >= 2 && opengl ==> spec_select_backend(
            opengl,
            metal,
            vulkan,
            apple,
        ) == RenderingBackend::OpenGL,
        spec_flag_count(opengl, metal, vulkan) >= 2 && !opengl ==> spec_select_backend(
            opengl,
            metal,
            vulkan,
            apple,
        ) == spec_platform_default(apple),
        spec_flag_count(opengl, metal, vulkan) >= 2 ==> {
            let chosen = spec_select_backend(opengl, metal, vulkan, apple);
            let d = spec_discarded_backends(opengl, metal, vulkan, apple);
            &&& d.len() >= 1
            &&& !d.contains(chosen)
            &&& (forall|i: int|
                0 <= i < d.len() ==> (d[i] == RenderingBackend::OpenGL ==> opengl) && (d[i]
                    == RenderingBackend::Metal ==> metal) && (d[i] == RenderingBackend::Vulkan
                    ==> vulkan))
            &&& (opengl && chosen != RenderingBackend::OpenGL ==> d.contains(
                RenderingBackend::OpenGL,
            ))
            &&& (metal && chosen != RenderingBackend::Metal ==> d.contains(
                RenderingBackend::Metal,
            ))
            &&& (vulkan && chosen != RenderingBackend::Vulkan ==> d.contains(
                RenderingBackend::Vulkan,
            ))
        },
{
    if spec_flag_count(opengl, metal, vulkan) >= 2 {
        let chosen = spec_select_backend(opengl, metal, vulkan, apple);
        let d = spec_discarded_backends(opengl, metal, vulkan, apple);
        if opengl && chosen != RenderingBackend::OpenGL {
            assert(d[0] == RenderingBackend::OpenGL);
        }
        if metal && chosen != RenderingBackend::Metal {
            let before: int = if opengl && chosen != RenderingBackend::OpenGL {
                1
            } else {
                0
            };
            assert(d[before] == RenderingBackend::Metal);
        }
        if vulkan && chosen != RenderingBackend::Vulkan {
            assert(d[d.len() - 1] == RenderingBackend::Vulkan);
        }
    }
}

} // verus!
