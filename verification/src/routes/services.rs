//! Assembling the service status page from probe results.
//!
//! The probes themselves (asking the container runtime and the process
//! table) are outside work done by the host program; this module turns
//! their answers into the fixed list of service entries.

use vstd::prelude::*;

use crate::images::str_eq;

verus! {

/// One watched service as shown on the status page.
pub struct ServiceEntry {
    /// The service's name.
    pub name: String,
    /// Whether the service is running.
    pub running: bool,
    /// The uptime of the service, or `N/A` when unavailable.
    pub uptime: String,
}

/// What a probe of one service reported.
pub struct ServiceProbe {
    /// Whether the service was seen running.
    pub running: bool,
    /// Its uptime, when the probe could tell.
    pub uptime: Option<String>,
}

pub open spec fn entry_of_probe(name: Seq<char>, probe: ServiceProbe, entry: ServiceEntry) -> bool {
    &&& entry.name@ == name
    &&& entry.running == probe.running
    &&& entry.uptime@ == match probe.uptime {
        Some(u) => u@,
        None => "N/A"@,
    }
}

fn probe_entry(name: &str, probe: ServiceProbe) -> (r: ServiceEntry)
    ensures
        entry_of_probe(name@, probe, r),
{
    let uptime = match probe.uptime {
        Some(u) => u,
        None => String::from_str("N/A"),
    };
    ServiceEntry { name: name.to_owned(), running: probe.running, uptime }
}

/// A process invocation the host program should perform for a service
/// action.
pub struct ServiceCommand {
    pub program: String,
    pub args: Vec<String>,
}

pub open spec fn command_is(c: ServiceCommand, program: Seq<char>, args: Seq<Seq<char>>) -> bool {
    c.program@ == program && c.args@.map_values(|a: String| a@) == args
}

fn command_of(program: &str, args: Vec<String>) -> (r: ServiceCommand)
    ensures
        command_is(r, program@, args@.map_values(|a: String| a@)),
{
    ServiceCommand { program: program.to_owned(), args }
}

fn two_args(a: &str, b: &str) -> (r: Vec<String>)
    ensures
        r@.map_values(|s: String| s@) =~= seq![a@, b@],
{
    let mut v: Vec<String> = Vec::new();
    v.push(a.to_owned());
    v.push(b.to_owned());
    proof {
        assert(v@.map_values(|s: String| s@) =~= seq![a@, b@]);
    }
    v
}

proof fn lemma_service_names_distinct()
    ensures
        "start"@ != "stop"@,
        "Snekbox API"@ != "Database"@,
        "Snekbox API"@ != "Percy-v2 Bot"@,
        "Database"@ != "Percy-v2 Bot"@,
        "Lavalink"@ != "Snekbox API"@,
        "Lavalink"@ != "Database"@,
        "Lavalink"@ != "Percy-v2 Bot"@,
{
    reveal_strlit("start");
    reveal_strlit("stop");
    assert("start"@.len() == 5);
    assert("stop"@.len() == 4);
    reveal_strlit("Lavalink");
    reveal_strlit("Snekbox API");
    reveal_strlit("Database");
    reveal_strlit("Percy-v2 Bot");
    assert("Lavalink"@.len() == 8);
    assert("Snekbox API"@.len() == 11);
    assert("Database"@.len() == 8);
    assert("Percy-v2 Bot"@.len() == 12);
    assert("Lavalink"@[0] == 'L');
    assert("Database"@[0] == 'D');
}

/// The process to run for a service action, or `None` for an unknown
/// service or action.  Starting the music service launches its jar in a
/// detached terminal session; everything else starts or stops the
/// matching container.
pub fn service_command(name: &str, action: &str) -> (r: Option<ServiceCommand>)
    ensures
        r is Some <==> (action@ == "start"@ || action@ == "stop"@) && (name@ == "Lavalink"@
            || name@ == "Snekbox API"@ || name@ == "Database"@ || name@ == "Percy-v2 Bot"@),
        r is Some ==> (action@ == "start"@ || action@ == "stop"@),
        name@ == "Snekbox API"@ ==> (match r {
            Some(c) => command_is(c, "docker"@, seq![action@, "percy-snekbox"@]),
            None => true,
        }),
        name@ == "Database"@ ==> (match r {
            Some(c) => command_is(c, "docker"@, seq![action@, "percy-db"@]),
            None => true,
        }),
        name@ == "Percy-v2 Bot"@ ==> (match r {
            Some(c) => command_is(c, "docker"@, seq![action@, "percy"@]),
            None => true,
        }),
        name@ == "Lavalink"@ && action@ == "start"@ ==> (match r {
            Some(c) => command_is(
                c,
                "screen"@,
                seq![
                    "-dmS"@,
                    "lavalink"@,
                    "/usr/bin/java"@,
                    "-jar"@,
                    "/home/parzival/executables/lavalink/Lavalink.jar"@,
                ],
            ),
            None => true,
        }),
        name@ == "Lavalink"@ && action@ == "stop"@ ==> (match r {
            Some(c) => command_is(c, "screen"@, seq!["-S"@, "lavalink"@, "-X"@, "quit"@]),
            None => true,
        }),
    {
    proof {
        lemma_service_names_distinct();
    }
    let starting = str_eq(action, "start");
    let stopping = str_eq(action, "stop");
    if !starting && !stopping {
        return None;
    }
    let docker_action: &str = if starting {
        "start"
    } else {
        "stop"
    };
    if str_eq(name, "Snekbox API") {
        Some(command_of("docker", two_args(docker_action, "percy-snekbox")))
    } else if str_eq(name, "Database") {
        Some(command_of("docker", two_args(docker_action, "percy-db")))
    } else if str_eq(name, "Percy-v2 Bot") {
        Some(command_of("docker", two_args(docker_action, "percy")))
    } else if str_eq(name, "Lavalink") {
        if starting {
            let mut args: Vec<String> = Vec::new();
            args.push(String::from_str("-dmS"));
            args.push(String::from_str("lavalink"));
            args.push(String::from_str("/usr/bin/java"));
            args.push(String::from_str("-jar"));
            args.push(String::from_str("/home/parzival/executables/lavalink/Lavalink.jar"));
            proof {
                assert(args@.map_values(|s: String| s@) =~= seq![
                    "-dmS"@,
                    "lavalink"@,
                    "/usr/bin/java"@,
                    "-jar"@,
                    "/home/parzival/executables/lavalink/Lavalink.jar"@,
                ]);
            }
            Some(command_of("screen", args))
        } else {
            let mut args: Vec<String> = Vec::new();
            args.push(String::from_str("-S"));
            args.push(String::from_str("lavalink"));
            args.push(String::from_str("-X"));
            args.push(String::from_str("quit"));
            proof {
                assert(args@.map_values(|s: String| s@) =~= seq![
                    "-S"@,
                    "lavalink"@,
                    "-X"@,
                    "quit"@,
                ]);
            }
            Some(command_of("screen", args))
        }
    } else {
        None
    }
}

/// The status page's service list, in its fixed order, from the four
/// probe results.
pub fn get_servicestatus(
    lavalink: ServiceProbe,
    snekbox: ServiceProbe,
    database: ServiceProbe,
    percy: ServiceProbe,
) -> (r: Vec<ServiceEntry>)
    ensures
        r@.len() == 4,
        entry_of_probe("Lavalink"@, lavalink, r@[0]),
        entry_of_probe("Snekbox API"@, snekbox, r@[1]),
        entry_of_probe("Database"@, database, r@[2]),
        entry_of_probe("Percy-v2 Bot"@, percy, r@[3]),
{
    let mut out: Vec<ServiceEntry> = Vec::new();
    out.push(probe_entry("Lavalink", lavalink));
    out.push(probe_entry("Snekbox API", snekbox));
    out.push(probe_entry("Database", database));
    out.push(probe_entry("Percy-v2 Bot", percy));
    out
}

} // verus!
