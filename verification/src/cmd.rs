//! What the commands of the command line show.
use crate::environment::{Environment, EnvironmentView};
use crate::error::{Kind, RancherError};
use crate::host::{Host, HostView};
use crate::json::Json;
use crate::resource::{found, views};
use vstd::prelude::*;

verus! {

/// The row of an environment: its id and its name.
pub open spec fn environment_row(environment: EnvironmentView) -> Seq<char> {
    environment.id + "\t"@ + environment.name + "\n"@
}

/// The rows of environments, in their order.
pub open spec fn environment_rows(environments: Seq<EnvironmentView>) -> Seq<char>
    decreases environments.len(),
{
    if environments.len() == 0 {
        Seq::empty()
    } else {
        environment_rows(environments.drop_last()) + environment_row(environments.last())
    }
}

/// The table of environments: a header and a row for each.
pub open spec fn environment_table(environments: Seq<EnvironmentView>) -> Seq<char> {
    "ID\tNAME\n"@ + environment_rows(environments)
}

/// The row of a host: its id and its hostname.
pub open spec fn host_row(host: HostView) -> Seq<char> {
    host.id + "\t"@ + host.hostname + "\n"@
}

/// The rows of hosts, in their order.
pub open spec fn host_rows(hosts: Seq<HostView>) -> Seq<char>
    decreases hosts.len(),
{
    if hosts.len() == 0 {
        Seq::empty()
    } else {
        host_rows(hosts.drop_last()) + host_row(hosts.last())
    }
}

/// The table of the hosts of one environment: a header and a row for each.
pub open spec fn host_table(hosts: Seq<HostView>) -> Seq<char> {
    "ID\tHOSTNAME\n"@ + host_rows(hosts)
}

/// The row of a host in the table of all hosts: its id, the name of its
/// environment and its hostname.
pub open spec fn placed_host_row(environment: Seq<char>, host: HostView) -> Seq<char> {
    host.id + "\t"@ + environment + "\t"@ + host.hostname + "\n"@
}

/// The rows of the hosts of one environment in the table of all hosts.
pub open spec fn placed_host_rows(environment: Seq<char>, hosts: Seq<HostView>) -> Seq<char>
    decreases hosts.len(),
{
    if hosts.len() == 0 {
        Seq::empty()
    } else {
        placed_host_rows(environment, hosts.drop_last()) + placed_host_row(
            environment,
            hosts.last(),
        )
    }
}

/// The rows of the hosts of several environments, environment by environment.
pub open spec fn grouped_host_rows(groups: Seq<(Environment, Vec<Host>)>) -> Seq<char>
    decreases groups.len(),
{
    if groups.len() == 0 {
        Seq::empty()
    } else {
        grouped_host_rows(groups.drop_last()) + placed_host_rows(
            groups.last().0@.name,
            views(groups.last().1@),
        )
    }
}

/// What the command `ls` shows for an argument, before alignment.
pub open spec fn listed(argument: Seq<char>, environments: Seq<EnvironmentView>) -> Seq<char> {
    if argument == "env"@ {
        environment_table(environments)
    } else if argument == "hosts"@ {
        Seq::empty()
    } else {
        "\n"@
    }
}

/// The id of the environment that a pattern names among the projects of a
/// response.
pub open spec fn env_from_arg(env: Option<Seq<char>>, response: crate::json::JsonView) -> Result<
    Seq<char>,
    RancherError,
> {
    match env {
        None => Err(RancherError::NoEnvironment),
        Some(pattern) => match found::<Environment>(response, pattern) {
            Ok(environment) => Ok(environment.id),
            Err(RancherError::NotFound(_)) => Err(RancherError::NotFound(Kind::Project)),
            Err(e) => Err(e),
        },
    }
}

/// The id of the host that a pattern names among the hosts of a response.
pub open spec fn host_from_arg(host: Seq<char>, response: crate::json::JsonView) -> Result<
    Seq<char>,
    RancherError,
> {
    match found::<Host>(response, host) {
        Ok(record) => Ok(record.id),
        Err(e) => Err(e),
    }
}

/// The rows of hosts placed in an environment, added to a table.
fn push_placed_host_rows(table: &mut String, environment: &str, hosts: &Vec<Host>)
    ensures
        final(table)@ == old(table)@ + placed_host_rows(environment@, views(hosts@)),
{
    let ghost all = views(hosts@);
    let ghost start = table@;
    let mut i: usize = 0;
    while i < hosts.len()
        invariant
            i <= hosts.len(),
            all == views(hosts@),
            table@ == start + placed_host_rows(environment@, all.take(i as int)),
        decreases hosts.len() - i,
    {
        assert(all.take(i as int + 1).drop_last() =~= all.take(i as int));
        table.append(hosts[i].id.as_str());
        table.append("\t");
        table.append(environment);
        table.append("\t");
        table.append(hosts[i].hostname.as_str());
        table.append("\n");
        i += 1;
    }
    assert(all.take(i as int) =~= all);
}

/// The table of environments: a header, then the id and the name of each.
pub fn list_environments(environments: &Vec<Environment>) -> (table: String)
    ensures
        table@ == environment_table(views(environments@)),
{
    let ghost all = views(environments@);
    let mut table = String::from_str("ID\tNAME\n");
    let mut i: usize = 0;
    while i < environments.len()
        invariant
            i <= environments.len(),
            all == views(environments@),
            table@ == "ID\tNAME\n"@ + environment_rows(all.take(i as int)),
        decreases environments.len() - i,
    {
        assert(all.take(i as int + 1).drop_last() =~= all.take(i as int));
        table.append(environments[i].id.as_str());
        table.append("\t");
        table.append(environments[i].name.as_str());
        table.append("\n");
        i += 1;
    }
    assert(all.take(i as int) =~= all);
    table
}

/// The table of the hosts of one environment: a header, then the id and the
/// hostname of each.
pub fn list_hosts(hosts: &Vec<Host>) -> (table: String)
    ensures
        table@ == host_table(views(hosts@)),
{
    let ghost all = views(hosts@);
    let mut table = String::from_str("ID\tHOSTNAME\n");
    let mut i: usize = 0;
    while i < hosts.len()
        invariant
            i <= hosts.len(),
            all == views(hosts@),
            table@ == "ID\tHOSTNAME\n"@ + host_rows(all.take(i as int)),
        decreases hosts.len() - i,
    {
        assert(all.take(i as int + 1).drop_last() =~= all.take(i as int));
        table.append(hosts[i].id.as_str());
        table.append("\t");
        table.append(hosts[i].hostname.as_str());
        table.append("\n");
        i += 1;
    }
    assert(all.take(i as int) =~= all);
    table
}

/// The table of the hosts of all environments: a header, then, environment by
/// environment, the id of each host, the name of its environment and its
/// hostname.
pub fn list_all_hosts(groups: &Vec<(Environment, Vec<Host>)>) -> (table: String)
    ensures
        table@ == "ID\tENVIRONMENT\tHOSTNAME\n"@ + grouped_host_rows(groups@),
{
    let mut table = String::from_str("ID\tENVIRONMENT\tHOSTNAME\n");
    let mut i: usize = 0;
    while i < groups.len()
        invariant
            i <= groups.len(),
            table@ == "ID\tENVIRONMENT\tHOSTNAME\n"@ + grouped_host_rows(groups@.take(i as int)),
        decreases groups.len() - i,
    {
        assert(groups@.take(i as int + 1).drop_last() =~= groups@.take(i as int));
        push_placed_host_rows(&mut table, groups[i].0.name.as_str(), &groups[i].1);
        i += 1;
    }
    assert(groups@.take(i as int) =~= groups@);
    table
}

/// What the command `ls` shows for an argument, before alignment: the table
/// of environments for `env`, nothing for `hosts`, an empty line otherwise.
pub fn list(argument: &str, environments: &Vec<Environment>) -> (shown: String)
    ensures
        shown@ == listed(argument@, views(environments@)),
{
    let argument = String::from_str(argument);
    if argument == String::from_str("env") {
        list_environments(environments)
    } else if argument == String::from_str("hosts") {
        String::new()
    } else {
        String::from_str("\n")
    }
}

/// The id of the environment that the option `env` names: the first project
/// of the response whose id or name it is. Without the option there is no
/// environment, and the response is not read.
pub fn get_env_from_arg(env: Option<&str>, response: &Json) -> (r: Result<String, RancherError>)
    ensures
        match r {
            Ok(id) => env_from_arg(
                match env {
                    Some(pattern) => Some(pattern@),
                    None => None,
                },
                response@,
            ) == Ok::<Seq<char>, RancherError>(id@),
            Err(e) => env_from_arg(
                match env {
                    Some(pattern) => Some(pattern@),
                    None => None,
                },
                response@,
            ) == Err::<Seq<char>, RancherError>(e),
        },
{
    match env {
        None => Err(RancherError::NoEnvironment),
        Some(pattern) => match Environment::get_one(response, pattern) {
            Ok(environment) => Ok(environment.id),
            Err(RancherError::NotFound(_)) => Err(RancherError::NotFound(Kind::Project)),
            Err(e) => Err(e),
        },
    }
}

/// The id of the host that the option `host` names: the first host of the
/// response whose id or hostname it is.
pub fn get_host_from_arg(host: &str, response: &Json) -> (r: Result<String, RancherError>)
    ensures
        match r {
            Ok(id) => host_from_arg(host@, response@) == Ok::<Seq<char>, RancherError>(id@),
            Err(e) => host_from_arg(host@, response@) == Err::<Seq<char>, RancherError>(e),
        },
{
    match Host::get_one(response, host) {
        Ok(record) => Ok(record.id),
        Err(e) => Err(e),
    }
}

} // verus!
