//! The directory that holds the templates of one kind.

use crate::error::{Error, ErrorView};
use crate::templates::kind::TemplateKind;
use crate::text::concat;
use vstd::prelude::*;

verus! {

/// A template directory: the directory of all templates, and in it the one
/// of a kind.
#[derive(Debug, PartialEq)]
pub struct TemplateDir {
    root_dir: String,
    template_path: String,
    kind: TemplateKind,
}

/// The model of a [`TemplateDir`].
pub struct TemplateDirView {
    pub root_dir: Seq<char>,
    pub template_path: Seq<char>,
    pub kind: TemplateKind,
}

impl View for TemplateDir {
    type V = TemplateDirView;

    closed spec fn view(&self) -> TemplateDirView {
        TemplateDirView {
            root_dir: self.root_dir@,
            template_path: self.template_path@,
            kind: self.kind,
        }
    }
}

/// A standard place where templates may be.
#[derive(Debug, Clone, Copy, PartialEq, Eq, Structural)]
pub enum DiscoveryPlace {
    /// The directory that the environment names.
    EnvironmentOverride,
    /// The directory above the working directory, for a development
    /// checkout.
    DevelopmentCheckout,
    /// The working directory.
    WorkingDirectory,
    /// The directory above the one that the program was built from.
    BuildManifest,
    /// The configuration directory of the user.
    UserHome,
}

/// The standard places in the order in which they are tried.
pub open spec fn discovery_places() -> Seq<DiscoveryPlace> {
    seq![
        DiscoveryPlace::EnvironmentOverride,
        DiscoveryPlace::DevelopmentCheckout,
        DiscoveryPlace::WorkingDirectory,
        DiscoveryPlace::BuildManifest,
        DiscoveryPlace::UserHome,
    ]
}

/// The name of the directory whose presence marks a place as one that holds
/// templates.
pub const TEMPLATES_MARKER: &'static str = "templates";

/// The name of the configuration directory of the user, below the home
/// directory.
pub const USER_DIRECTORY: &'static str = ".mcpgen";

/// The environment variable that names the directory of a place, for the
/// places that the environment decides.
pub open spec fn place_variable(place: DiscoveryPlace) -> Option<Seq<char>> {
    match place {
        DiscoveryPlace::EnvironmentOverride => Some("MCPGEN_TEMPLATE_DIR"@),
        DiscoveryPlace::BuildManifest => Some("CARGO_MANIFEST_DIR"@),
        _ => None,
    }
}

impl DiscoveryPlace {
    /// The environment variable that names the directory of the place, for
    /// the places that the environment decides.
    pub fn variable(&self) -> (r: Option<&'static str>)
        ensures
            match r {
                Some(name) => place_variable(*self) == Some(name@),
                None => place_variable(*self) is None,
            },
    {
        match self {
            DiscoveryPlace::EnvironmentOverride => Some("MCPGEN_TEMPLATE_DIR"),
            DiscoveryPlace::BuildManifest => Some("CARGO_MANIFEST_DIR"),
            _ => None,
        }
    }
}

/// What was found at one place where templates may be.
#[derive(Debug, PartialEq)]
pub struct DirProbe {
    /// The directory that would hold all templates.
    pub root_dir: String,
    /// Whether the place exists.
    pub found: bool,
    /// The directory in `root_dir` for the kind that is looked for.
    pub template_path: String,
    /// Whether that directory exists.
    pub template_found: bool,
}

/// The model of a [`DirProbe`].
pub struct DirProbeView {
    pub root_dir: Seq<char>,
    pub found: bool,
    pub template_path: Seq<char>,
    pub template_found: bool,
}

impl View for DirProbe {
    type V = DirProbeView;

    open spec fn view(&self) -> DirProbeView {
        DirProbeView {
            root_dir: self.root_dir@,
            found: self.found,
            template_path: self.template_path@,
            template_found: self.template_found,
        }
    }
}

/// The models of a list of places.
pub open spec fn probes_view(v: Seq<DirProbe>) -> Seq<DirProbeView> {
    Seq::new(v.len(), |i: int| v[i]@)
}

/// The first of the places that exists.
pub open spec fn first_found(places: Seq<DirProbeView>) -> Option<DirProbeView>
    decreases places.len(),
{
    if places.len() == 0 {
        None
    } else if places[0].found {
        Some(places[0])
    } else {
        first_found(places.skip(1))
    }
}

/// The outcome of looking for the templates of a kind.
///
/// A directory named by the caller is taken as it is and must exist.
/// Otherwise the first standard place that exists is taken; there must be
/// one. In the directory taken, the directory of the kind must exist.
pub open spec fn discovered(
    kind: TemplateKind,
    custom: Option<DirProbeView>,
    places: Seq<DirProbeView>,
) -> Result<TemplateDirView, ErrorView> {
    let chosen = match custom {
        Some(c) => if c.found {
            Ok(c)
        } else {
            Err(ErrorView::Io("Template directory not found: "@ + c.root_dir))
        },
        None => match first_found(places) {
            Some(p) => Ok(p),
            None => Err(
                ErrorView::Io("Could not find template directory in any standard location"@),
            ),
        },
    };
    match chosen {
        Err(e) => Err(e),
        Ok(p) => if p.template_found {
            Ok(TemplateDirView { root_dir: p.root_dir, template_path: p.template_path, kind })
        } else {
            Err(ErrorView::Io("Template directory not found: "@ + p.template_path))
        },
    }
}

fn first_existing(places: &Vec<DirProbe>) -> (r: Option<usize>)
    ensures
        match r {
            Some(i) => i < places.len() && first_found(probes_view(places@)) == Some(
                places@[i as int]@,
            ),
            None => first_found(probes_view(places@)) is None,
        },
{
    let ghost all = probes_view(places@);
    let mut i: usize = 0;
    assert(all.skip(0) =~= all);
    while i < places.len()
        invariant
            i <= places.len(),
            all == probes_view(places@),
            first_found(all) == first_found(all.skip(i as int)),
        decreases places.len() - i,
    {
        proof {
            assert(all.skip(i as int)[0] == all[i as int]);
            assert(all.skip(i as int).skip(1) =~= all.skip(i as int + 1));
        }
        if places[i].found {
            return Some(i);
        }
        i += 1;
    }
    None
}

impl TemplateDir {
    /// The standard places in the order in which they are tried.
    pub fn discovery_order() -> (r: Vec<DiscoveryPlace>)
        ensures
            r@ == discovery_places(),
    {
        let places = vec![
            DiscoveryPlace::EnvironmentOverride,
            DiscoveryPlace::DevelopmentCheckout,
            DiscoveryPlace::WorkingDirectory,
            DiscoveryPlace::BuildManifest,
            DiscoveryPlace::UserHome,
        ];
        assert(places@ =~= discovery_places());
        places
    }

    /// A template directory of the given paths.
    pub fn new(root_dir: String, template_path: String, kind: TemplateKind) -> (r: TemplateDir)
        ensures
            r@ == (TemplateDirView { root_dir: root_dir@, template_path: template_path@, kind }),
    {
        TemplateDir { root_dir, template_path, kind }
    }

    /// The path of the directory of the kind, as text.
    pub fn to_string_lossy(&self) -> (r: String)
        ensures
            r@ == self@.template_path,
    {
        self.template_path.clone()
    }

    /// The path of the directory of the kind, for display.
    pub fn display(&self) -> (r: String)
        ensures
            r@ == self@.template_path,
    {
        self.template_path.clone()
    }

    /// The directory that holds all templates: that of the first of the
    /// places that exists; none where none of them does.
    pub fn find_template_base_dir(places: &Vec<DirProbe>) -> (r: Option<String>)
        ensures
            crate::json::opt_text(r) == match first_found(probes_view(places@)) {
                Some(p) => Some(p.root_dir),
                None => None,
            },
    {
        match first_existing(places) {
            Some(i) => Some(places[i].root_dir.clone()),
            None => None,
        }
    }

    /// Chooses the template directory of a kind from what was found at the
    /// directory that the caller named, or else at the standard places in
    /// their order.
    pub fn discover(kind: TemplateKind, custom_dir: Option<&DirProbe>, places: &Vec<DirProbe>) -> (r:
        Result<TemplateDir, Error>)
        ensures
            match r {
                Ok(dir) => discovered(
                    kind,
                    match custom_dir {
                        Some(c) => Some(c@),
                        None => None,
                    },
                    probes_view(places@),
                ) == Ok::<TemplateDirView, ErrorView>(dir@),
                Err(e) => discovered(
                    kind,
                    match custom_dir {
                        Some(c) => Some(c@),
                        None => None,
                    },
                    probes_view(places@),
                ) == Err::<TemplateDirView, ErrorView>(e@),
            },
    {
        let chosen: &DirProbe = match custom_dir {
            Some(c) => {
                if !c.found {
                    return Err(
                        Error::Io(concat("Template directory not found: ", c.root_dir.as_str())),
                    );
                }
                c
            },
            None => match first_existing(places) {
                Some(i) => &places[i],
                None => {
                    return Err(
                        Error::Io(
                            crate::text::owned(
                                "Could not find template directory in any standard location",
                            ),
                        ),
                    );
                },
            },
        };
        if !chosen.template_found {
            return Err(
                Error::Io(concat("Template directory not found: ", chosen.template_path.as_str())),
            );
        }
        Ok(TemplateDir::new(chosen.root_dir.clone(), chosen.template_path.clone(), kind))
    }

    /// The directory that holds the templates of all kinds.
    pub fn root_dir(&self) -> (r: &str)
        ensures
            r@ == self@.root_dir,
    {
        self.root_dir.as_str()
    }

    /// The kind of the templates.
    pub fn kind(&self) -> (r: TemplateKind)
        ensures
            r == self@.kind,
    {
        self.kind
    }

    /// The directory of the templates of the kind.
    pub fn template_path(&self) -> (r: &str)
        ensures
            r@ == self@.template_path,
    {
        self.template_path.as_str()
    }

    /// The directory of the templates of the kind, given away.
    pub fn into_path_buf(self) -> (r: String)
        ensures
            r@ == self@.template_path,
    {
        self.template_path
    }
}

} // verus!
