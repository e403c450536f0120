//! Runtime-spec synthesis: the runtime configuration of a bundle, generated
//! from an image configuration.

use vstd::prelude::*;
use vstd::string::*;
use crate::container::Error;
use crate::image::config::{ContainerConfig, ImageConfig};
use crate::table::{map_of, Table};

verus! {

/// The file name of a bundle's runtime configuration.
pub const BUNDLE_CONFIG: &'static str = "config.json";

/// The process of a runtime configuration. A field that is `None` is left at
/// the runtime's default (`sh`, the default environment, `/`).
#[derive(Debug)]
pub struct ProcessConfig {
    /// The arguments, program first.
    pub args: Option<Vec<String>>,
    /// Environment variables, each `KEY=VALUE`.
    pub env: Option<Vec<String>>,
    /// The working directory.
    pub cwd: Option<String>,
}

/// A runtime configuration. A field that is `None` is left at the runtime's
/// default.
#[derive(Debug)]
pub struct RuntimeConfig {
    /// The runtime-spec version.
    pub version: Option<String>,
    /// The process to run.
    pub process: Option<ProcessConfig>,
    /// Annotations, by key.
    pub annotations: Option<Table<String>>,
}

/// The annotation key under which an image's creation time is recorded.
pub const ANNOTATION_CREATED: &'static str = "org.opencontainers.image.created";

/// The annotation key under which an image's creation time is recorded.
pub open spec fn created_key() -> Seq<char> {
    ANNOTATION_CREATED@
}

/// The runtime-spec version of generated configurations.
pub open spec fn generated_version() -> Seq<char> {
    "1.0"@
}

/// The arguments of an image's process: entrypoint, then command.
pub open spec fn image_args(config: ContainerConfig) -> Seq<String> {
    (match config.entrypoint {
        Some(e) => e@,
        None => Seq::empty(),
    }) + (match config.cmd {
        Some(c) => c@,
        None => Seq::empty(),
    })
}

/// The process that an image configuration describes.
pub open spec fn process_of(image_config: ImageConfig, p: ProcessConfig) -> bool {
    match image_config.config {
        Some(config) => {
            &&& (if image_args(config).len() == 0 {
                p.args is None
            } else {
                p.args is Some && p.args->0@ == image_args(config)
            })
            &&& (match config.env {
                Some(env) => p.env is Some && p.env->0@ == env@,
                None => p.env is None,
            })
            &&& (match config.working_dir {
                Some(dir) => p.cwd == Some(dir),
                None => p.cwd is None,
            })
        },
        None => p.args is None && p.env is None && p.cwd is None,
    }
}

/// The annotations of an image configuration: its labels, and its creation
/// time under `created_key()`, which no label overrides.
pub open spec fn annotations_of(image_config: ImageConfig) -> Map<Seq<char>, String> {
    let labels = match image_config.config {
        Some(config) => match config.labels {
            Some(labels) => map_of(labels@),
            None => Map::empty(),
        },
        None => Map::empty(),
    };
    match image_config.created {
        Some(created) => labels.insert(created_key(), created),
        None => labels,
    }
}

/// The runtime configuration generated from an optional image configuration.
pub open spec fn generated_from(image_config: Option<ImageConfig>, c: RuntimeConfig) -> bool {
    match image_config {
        None => c.version is None && c.process is None && c.annotations is None,
        Some(image_config) => {
            &&& c.version is Some && c.version->0@ == generated_version()
            &&& c.process is Some && process_of(image_config, c.process->0)
            &&& c.annotations is Some && c.annotations->0.wf()
            &&& c.annotations->0@ == annotations_of(image_config)
        },
    }
}

/// Builds the process of a runtime configuration from an image configuration:
/// its arguments are the entrypoint followed by the command, left unset when
/// both are empty; its environment and working directory are the image's.
pub fn build_process(image_config: &ImageConfig) -> (r: ProcessConfig)
    ensures
        process_of(*image_config, r),
{
    let mut process = ProcessConfig { args: None, env: None, cwd: None };
    match &image_config.config {
        Some(config) => {
            let mut args: Vec<String> = Vec::new();
            match &config.entrypoint {
                Some(entrypoint) => {
                    let mut i: usize = 0;
                    while i < entrypoint.len()
                        invariant
                            i <= entrypoint@.len(),
                            args@ == entrypoint@.subrange(0, i as int),
                        decreases entrypoint.len() - i,
                    {
                        args.push(entrypoint[i].clone());
                        assert(args@ =~= entrypoint@.subrange(0, i + 1));
                        i = i + 1;
                    }
                    assert(entrypoint@.subrange(0, entrypoint@.len() as int) =~= entrypoint@);
                },
                None => {},
            }
            let ghost head = args@;
            match &config.cmd {
                Some(cmd) => {
                    let mut i: usize = 0;
                    while i < cmd.len()
                        invariant
                            i <= cmd@.len(),
                            args@ == head + cmd@.subrange(0, i as int),
                        decreases cmd.len() - i,
                    {
                        args.push(cmd[i].clone());
                        assert(args@ =~= head + cmd@.subrange(0, i + 1));
                        i = i + 1;
                    }
                    assert(cmd@.subrange(0, cmd@.len() as int) =~= cmd@);
                },
                None => {},
            }
            assert(args@ =~= image_args(*config));
            match &config.env {
                Some(env) => {
                    process.env = Some(env.clone());
                },
                None => {},
            }
            match &config.working_dir {
                Some(dir) => {
                    process.cwd = Some(dir.clone());
                },
                None => {},
            }
            if args.len() > 0 {
                process.args = Some(args);
            }
        },
        None => {},
    }
    process
}

/// Builds the annotations of a runtime configuration from an image
/// configuration: its labels, then its creation time under `created_key()`,
/// which no label overrides.
pub fn build_annotations(image_config: &ImageConfig) -> (r: Table<String>)
    ensures
        r.wf(),
        r@ == annotations_of(*image_config),
{
    let mut annotations: Table<String> = Table::new();
    match &image_config.config {
        Some(config) => match &config.labels {
            Some(labels) => {
                let mut i: usize = 0;
                while i < labels.len()
                    invariant
                        i <= labels@.len(),
                        annotations.wf(),
                        annotations@ == map_of(labels@.subrange(0, i as int)),
                    decreases labels.len() - i,
                {
                    let key = labels[i].0.clone();
                    let value = labels[i].1.clone();
                    assert(labels@.subrange(0, i + 1).drop_last() =~= labels@.subrange(0, i as int));
                    annotations.insert(key, value);
                    i = i + 1;
                }
                assert(labels@.subrange(0, labels@.len() as int) =~= labels@);
            },
            None => {},
        },
        None => {},
    }
    match &image_config.created {
        Some(created) => {
            annotations.insert(String::from_str(ANNOTATION_CREATED), created.clone());
        },
        None => {},
    }
    annotations
}

/// Generates a runtime configuration. Without an image configuration every
/// field is left at the runtime default; with one, the version is `1.0`, the
/// process is `build_process`'s and the annotations are `build_annotations`'s.
/// It always succeeds.
pub fn new_runtime_config(image_config: Option<&ImageConfig>) -> (r: Result<RuntimeConfig, Error>)
    ensures
        r is Ok,
        generated_from(
            match image_config {
                Some(c) => Some(*c),
                None => None,
            },
            r->Ok_0,
        ),
{
    match image_config {
        Some(image_config) => {
            let annotations = build_annotations(image_config);
            let process = build_process(image_config);
            Ok(RuntimeConfig {
                version: Some(String::from_str("1.0")),
                process: Some(process),
                annotations: Some(annotations),
            })
        },
        None => Ok(RuntimeConfig { version: None, process: None, annotations: None }),
    }
}

/// A configuration generated from an image whose entrypoint is `e`, command
/// `c`, environment `v` and working directory `d` runs `e ++ c` with
/// environment `v` in `d` (when `e ++ c` is empty the arguments are left to the
/// runtime's default instead).
pub proof fn lemma_generated_process(
    image_config: ImageConfig,
    generated: RuntimeConfig,
    e: Seq<String>,
    c: Seq<String>,
    v: Seq<String>,
    d: String,
)
    requires
        generated_from(Some(image_config), generated),
        image_config.config is Some,
        image_config.config->0.entrypoint is Some && image_config.config->0.entrypoint->0@ == e,
        image_config.config->0.cmd is Some && image_config.config->0.cmd->0@ == c,
        image_config.config->0.env is Some && image_config.config->0.env->0@ == v,
        image_config.config->0.working_dir == Some(d),
    ensures
        generated.process is Some,
        e + c != Seq::<String>::empty() ==> generated.process->0.args is Some
            && generated.process->0.args->0@ == e + c,
        e + c == Seq::<String>::empty() ==> generated.process->0.args is None,
        generated.process->0.env is Some && generated.process->0.env->0@ == v,
        generated.process->0.cwd == Some(d),
{
    assert(image_args(image_config.config->0) == e + c);
    if (e + c).len() == 0 {
        assert(e + c =~= Seq::<String>::empty());
    }
}

} // verus!
