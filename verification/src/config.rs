//! The mapping store: the full relay configuration, its invariant, and the
//! lookup and mutation operations the router uses.

use vstd::prelude::*;

verus! {

/// One IRC-channel-to-Discord-channel mapping: the IRC channel name (or a
/// synthesized direct-message peer name) and the Discord channel it relays to.
#[derive(Debug, Clone, PartialEq)]
pub struct Channel {
    pub name: String,
    pub discord_channel_id: u64,
}

/// One IRC network connection target together with its channel mappings.
#[derive(Debug, Clone, PartialEq)]
pub struct Server {
    pub host: String,
    pub port: u16,
    pub use_ssl: bool,
    pub nick: String,
    pub password: String,
    /// Parent (category) channel under which newly provisioned channels are created.
    pub discord_channel_id: u64,
    /// Destination channel for this server's operational log lines.
    pub log_channel_id: u64,
    pub channels: Vec<Channel>,
}

/// Store-wide special destinations.
#[derive(Debug, Clone, PartialEq)]
pub struct SpecialChannels {
    /// Destination channel for warnings not tied to one server.
    pub log: u64,
}

/// The full relay configuration: servers keyed by host, the special
/// channels, and the guild under which new channels are created.
#[derive(Debug, Clone, PartialEq)]
pub struct Config {
    pub servers: Vec<Server>,
    pub special_channels: SpecialChannels,
    pub guild_id: u64,
}

impl Server {
    /// Some channel entry of this server carries this name.
    pub open spec fn spec_has_channel(&self, name: Seq<char>) -> bool {
        exists|j: int| 0 <= j < self.channels@.len() && self.channels@[j].name@ == name
    }

    /// The position of the channel entry carrying this name.
    pub open spec fn spec_channel_index(&self, name: Seq<char>) -> int {
        choose|j: int| 0 <= j < self.channels@.len() && self.channels@[j].name@ == name
    }

    /// The Discord channel id this name is mapped to.
    pub open spec fn spec_channel_id(&self, name: Seq<char>) -> u64 {
        self.channels@[self.spec_channel_index(name)].discord_channel_id
    }

    /// No two channel entries of this server share a name.
    pub open spec fn channel_names_unique(&self) -> bool {
        forall|a: int, b: int|
            0 <= a < b < self.channels@.len()
                ==> self.channels@[a].name@ != self.channels@[b].name@
    }

    /// Exact lookup of a channel mapping by name; absence is a normal outcome.
    pub fn find_channel(&self, name: &String) -> (r: Option<usize>)
        requires
            self.channel_names_unique(),
        ensures
            match r {
                Some(j) => self.spec_has_channel(name@) && j as int == self.spec_channel_index(
                    name@,
                ),
                None => !self.spec_has_channel(name@),
            },
    {
        let n = self.channels.len();
        let mut j: usize = 0;
        while j < n
            invariant
                n == self.channels@.len(),
                j <= n,
                self.channel_names_unique(),
                forall|k: int| 0 <= k < j ==> self.channels@[k].name@ != name@,
            decreases n - j,
        {
            if self.channels[j].name == *name {
                proof {
                    lemma_channel_index_is(*self, name@, j as int);
                }
                return Some(j);
            }
            j += 1;
        }
        None
    }
}

/// The channel entry that carries a name is unique, so its position is
/// exactly the one the store's specification designates.
pub proof fn lemma_channel_index_is(s: Server, name: Seq<char>, j: int)
    requires
        s.channel_names_unique(),
        0 <= j < s.channels@.len(),
        s.channels@[j].name@ == name,
    ensures
        s.spec_has_channel(name),
        s.spec_channel_index(name) == j,
{
    assert(s.spec_has_channel(name));
    let w = s.spec_channel_index(name);
    assert(0 <= w < s.channels@.len() && s.channels@[w].name@ == name);
    if w < j {
        assert(s.channels@[w].name@ != s.channels@[j].name@);
    } else if j < w {
        assert(s.channels@[j].name@ != s.channels@[w].name@);
    }
}

impl Config {
    /// Some server of the store carries this host.
    pub open spec fn spec_has_server(&self, host: Seq<char>) -> bool {
        exists|i: int| 0 <= i < self.servers@.len() && self.servers@[i].host@ == host
    }

    /// The position of the server carrying this host.
    pub open spec fn spec_server_index(&self, host: Seq<char>) -> int {
        choose|i: int| 0 <= i < self.servers@.len() && self.servers@[i].host@ == host
    }

    /// The server carrying this host.
    pub open spec fn spec_server(&self, host: Seq<char>) -> Server {
        self.servers@[self.spec_server_index(host)]
    }

    /// No two servers of the store share a host.
    pub open spec fn hosts_unique(&self) -> bool {
        forall|a: int, b: int|
            0 <= a < b < self.servers@.len() ==> self.servers@[a].host@ != self.servers@[b].host@
    }

    /// Within every server, channel names are unique.
    pub open spec fn all_channel_names_unique(&self) -> bool {
        forall|i: int|
            0 <= i < self.servers@.len() ==> self.servers@[i].channel_names_unique()
    }

    /// Some channel entry anywhere in the store is mapped to this Discord id.
    pub open spec fn spec_id_used(&self, id: u64) -> bool {
        exists|k: int, l: int|
            0 <= k < self.servers@.len() && 0 <= l < self.servers@[k].channels@.len()
                && self.servers@[k].channels@[l].discord_channel_id == id
    }

    /// No two channel entries anywhere in the store share a Discord id.
    pub open spec fn channel_ids_unique(&self) -> bool {
        forall|k1: int, l1: int, k2: int, l2: int|
            #![trigger self.servers@[k1].channels@[l1], self.servers@[k2].channels@[l2]]
            0 <= k1 < self.servers@.len() && 0 <= l1 < self.servers@[k1].channels@.len() && 0 <= k2
                < self.servers@.len() && 0 <= l2 < self.servers@[k2].channels@.len() && (k1 != k2
                || l1 != l2)
                ==> self.servers@[k1].channels@[l1].discord_channel_id
                != self.servers@[k2].channels@[l2].discord_channel_id
    }

    /// The store invariant: hosts unique, channel names unique within each
    /// server, Discord channel ids unique store-wide.
    pub open spec fn wf(&self) -> bool {
        &&& self.hosts_unique()
        &&& self.all_channel_names_unique()
        &&& self.channel_ids_unique()
    }

    /// Exact lookup of a server by host; absence is a normal outcome
    /// (unknown or removed server), not an error.
    pub fn find_server(&self, host: &String) -> (r: Option<usize>)
        requires
            self.hosts_unique(),
        ensures
            match r {
                Some(i) => self.spec_has_server(host@) && i as int == self.spec_server_index(host@)
                    && i < self.servers@.len(),
                None => !self.spec_has_server(host@),
            },
    {
        let n = self.servers.len();
        let mut i: usize = 0;
        while i < n
            invariant
                n == self.servers@.len(),
                i <= n,
                self.hosts_unique(),
                forall|k: int| 0 <= k < i ==> self.servers@[k].host@ != host@,
            decreases n - i,
        {
            if self.servers[i].host == *host {
                proof {
                    lemma_server_index_is(*self, host@, i as int);
                }
                return Some(i);
            }
            i += 1;
        }
        None
    }
}

/// The fields of a server that a channel addition leaves untouched.
pub open spec fn same_server_settings(a: Server, b: Server) -> bool {
    &&& a.host == b.host
    &&& a.port == b.port
    &&& a.use_ssl == b.use_ssl
    &&& a.nick == b.nick
    &&& a.password == b.password
    &&& a.discord_channel_id == b.discord_channel_id
    &&& a.log_channel_id == b.log_channel_id
}

/// The store `post` is exactly the store `pre` with one channel entry,
/// mapping `name` to `id`, appended to the server at position `i`.
pub open spec fn adds_channel(pre: Config, post: Config, i: int, name: Seq<char>, id: u64) -> bool {
    &&& 0 <= i < pre.servers@.len()
    &&& post.servers@.len() == pre.servers@.len()
    &&& (forall|k: int|
        0 <= k < pre.servers@.len() && k != i ==> post.servers@[k] == pre.servers@[k])
    &&& same_server_settings(pre.servers@[i], post.servers@[i])
    &&& post.servers@[i].channels@.len() == pre.servers@[i].channels@.len() + 1
    &&& (forall|l: int|
        0 <= l < pre.servers@[i].channels@.len() ==> post.servers@[i].channels@[l]
            == pre.servers@[i].channels@[l])
    &&& post.servers@[i].channels@.last().name@ == name
    &&& post.servers@[i].channels@.last().discord_channel_id == id
    &&& post.special_channels == pre.special_channels
    &&& post.guild_id == pre.guild_id
}

/// A mapping, once recorded, survives every later channel addition: adding
/// a channel to any server of a well-formed store neither removes a recorded
/// (host, channel) pair nor changes the Discord id it is mapped to.
pub proof fn mapping_survives_additions(
    pre: Config,
    post: Config,
    i: int,
    name: Seq<char>,
    id: u64,
    host: Seq<char>,
    channel: Seq<char>,
)
    requires
        pre.wf(),
        post.wf(),
        adds_channel(pre, post, i, name, id),
        pre.spec_has_server(host),
        pre.spec_server(host).spec_has_channel(channel),
    ensures
        post.spec_has_server(host),
        post.spec_server(host).spec_has_channel(channel),
        post.spec_server(host).spec_channel_id(channel) == pre.spec_server(host).spec_channel_id(
            channel,
        ),
{
    let si = pre.spec_server_index(host);
    assert(pre.servers@[si].host@ == host);
    if si != i {
        assert(post.servers@[si] == pre.servers@[si]);
    }
    lemma_server_index_is(post, host, si);
    let s = pre.servers@[si];
    let t = post.servers@[si];
    let j = s.spec_channel_index(channel);
    assert(0 <= j < s.channels@.len() && s.channels@[j].name@ == channel);
    assert(s.channel_names_unique());
    lemma_channel_index_is(s, channel, j);
    if si == i {
        assert(t.channels@[j] == s.channels@[j]);
    }
    assert(t.channel_names_unique());
    lemma_channel_index_is(t, channel, j);
}

impl Config {
    /// Appends a new channel mapping to the server at this position. The
    /// caller must already have verified absence: the name must be unmapped
    /// on that server and the Discord id unused store-wide, so the store
    /// invariant is preserved.
    pub fn add_channel(&mut self, server_index: usize, name: String, discord_channel_id: u64)
        requires
            old(self).wf(),
            server_index < old(self).servers@.len(),
            !old(self).servers@[server_index as int].spec_has_channel(name@),
            !old(self).spec_id_used(discord_channel_id),
        ensures
            final(self).wf(),
            adds_channel(
                *old(self),
                *final(self),
                server_index as int,
                name@,
                discord_channel_id,
            ),
    {
        let ghost pre = *self;
        let ghost i = server_index as int;
        let ghost name_v = name@;
        let mut server = self.servers.remove(server_index);
        server.channels.push(Channel { name, discord_channel_id });
        self.servers.insert(server_index, server);
        proof {
            let post = *self;
            let n = pre.servers@.len();
            let m = pre.servers@[i].channels@.len();
            assert forall|k: int| 0 <= k < n && k != i implies post.servers@[k]
                == pre.servers@[k] by {
                if k < i {
                    assert(post.servers@[k] == pre.servers@.remove(i)[k]);
                } else {
                    assert(post.servers@[k] == pre.servers@.remove(i)[k - 1]);
                }
            }
            assert(adds_channel(pre, post, i, name_v, discord_channel_id));
            assert forall|k: int| 0 <= k < n implies post.servers@[k].host
                == pre.servers@[k].host by {
                if k != i {
                    assert(post.servers@[k] == pre.servers@[k]);
                }
            }
            assert(post.hosts_unique()) by {
                assert forall|a: int, b: int| 0 <= a < b < n implies post.servers@[a].host@
                    != post.servers@[b].host@ by {
                    assert(post.servers@[a].host == pre.servers@[a].host);
                    assert(post.servers@[b].host == pre.servers@[b].host);
                    assert(pre.servers@[a].host@ != pre.servers@[b].host@);
                }
            }
            assert(post.all_channel_names_unique()) by {
                assert forall|k: int| 0 <= k < n implies post.servers@[k].channel_names_unique() by {
                    if k != i {
                        assert(post.servers@[k] == pre.servers@[k]);
                        assert(pre.servers@[k].channel_names_unique());
                    } else {
                        let pc = pre.servers@[i].channels@;
                        let qc = post.servers@[i].channels@;
                        assert forall|a: int, b: int| 0 <= a < b < qc.len() implies qc[a].name@
                            != qc[b].name@ by {
                            assert(pre.servers@[i].channel_names_unique());
                            assert(qc[a] == pc[a]);
                            if b < m {
                                assert(qc[b] == pc[b]);
                                assert(pc[a].name@ != pc[b].name@);
                            } else {
                                assert(qc[b].name@ == name_v);
                                assert(pc[a].name@ != name_v);
                            }
                        }
                    }
                }
            }
            assert(post.channel_ids_unique()) by {
                assert forall|k1: int, l1: int, k2: int, l2: int|
                    #![trigger post.servers@[k1].channels@[l1], post.servers@[k2].channels@[l2]]
                    0 <= k1 < post.servers@.len() && 0 <= l1 < post.servers@[k1].channels@.len()
                        && 0 <= k2 < post.servers@.len() && 0 <= l2
                        < post.servers@[k2].channels@.len() && (k1 != k2 || l1 != l2) implies post.servers@[k1].channels@[l1].discord_channel_id
                    != post.servers@[k2].channels@[l2].discord_channel_id by {
                    let new1 = k1 == i && l1 == m;
                    let new2 = k2 == i && l2 == m;
                    if !new1 {
                        if k1 != i {
                            assert(post.servers@[k1] == pre.servers@[k1]);
                        } else {
                            assert(post.servers@[k1].channels@[l1]
                                == pre.servers@[k1].channels@[l1]);
                        }
                    }
                    if !new2 {
                        if k2 != i {
                            assert(post.servers@[k2] == pre.servers@[k2]);
                        } else {
                            assert(post.servers@[k2].channels@[l2]
                                == pre.servers@[k2].channels@[l2]);
                        }
                    }
                    if new1 && !new2 {
                        assert(pre.servers@[k2].channels@[l2].discord_channel_id
                            != discord_channel_id);
                    } else if !new1 && new2 {
                        assert(pre.servers@[k1].channels@[l1].discord_channel_id
                            != discord_channel_id);
                    } else if !new1 && !new2 {
                        assert(pre.servers@[k1].channels@[l1].discord_channel_id
                            != pre.servers@[k2].channels@[l2].discord_channel_id);
                    }
                }
            }
        }
    }

    /// Whether some channel entry anywhere in the store is already mapped to
    /// this Discord id.
    pub fn discord_id_used(&self, id: u64) -> (r: bool)
        ensures
            r == self.spec_id_used(id),
    {
        let n = self.servers.len();
        let mut k: usize = 0;
        while k < n
            invariant
                n == self.servers@.len(),
                k <= n,
                forall|a: int, b: int|
                    0 <= a < k && 0 <= b < self.servers@[a].channels@.len()
                        ==> self.servers@[a].channels@[b].discord_channel_id != id,
            decreases n - k,
        {
            let m = self.servers[k].channels.len();
            let mut l: usize = 0;
            while l < m
                invariant
                    n == self.servers@.len(),
                    k < n,
                    m == self.servers@[k as int].channels@.len(),
                    l <= m,
                    forall|a: int, b: int|
                        0 <= a < k && 0 <= b < self.servers@[a].channels@.len()
                            ==> self.servers@[a].channels@[b].discord_channel_id != id,
                    forall|b: int|
                        0 <= b < l ==> self.servers@[k as int].channels@[b].discord_channel_id
                            != id,
                decreases m - l,
            {
                if self.servers[k].channels[l].discord_channel_id == id {
                    proof {
                        assert(self.servers@[k as int].channels@[l as int].discord_channel_id
                            == id);
                    }
                    return true;
                }
                l += 1;
            }
            k += 1;
        }
        proof {
            if self.spec_id_used(id) {
                let (a, b) = choose|a: int, b: int|
                    0 <= a < self.servers@.len() && 0 <= b < self.servers@[a].channels@.len()
                        && self.servers@[a].channels@[b].discord_channel_id == id;
                assert(self.servers@[a].channels@[b].discord_channel_id != id);
            }
        }
        false
    }
    /// Some other channel entry than the one at this position carries the
    /// same Discord id.
    pub open spec fn spec_id_elsewhere(&self, si: int, ci: int) -> bool {
        exists|k: int, l: int|
            0 <= k < self.servers@.len() && 0 <= l < self.servers@[k].channels@.len() && (k != si
                || l != ci) && self.servers@[k].channels@[l].discord_channel_id
                == self.servers@[si].channels@[ci].discord_channel_id
    }

    /// Whether some other channel entry than the one at the given position
    /// carries the same Discord id.
    fn id_used_elsewhere(&self, si: usize, ci: usize) -> (r: bool)
        requires
            si < self.servers@.len(),
            ci < self.servers@[si as int].channels@.len(),
        ensures
            r == self.spec_id_elsewhere(si as int, ci as int),
    {
        let id = self.servers[si].channels[ci].discord_channel_id;
        let n = self.servers.len();
        let mut k: usize = 0;
        while k < n
            invariant
                n == self.servers@.len(),
                k <= n,
                si < n,
                ci < self.servers@[si as int].channels@.len(),
                id == self.servers@[si as int].channels@[ci as int].discord_channel_id,
                forall|a: int, b: int|
                    0 <= a < k && 0 <= b < self.servers@[a].channels@.len() && (a != si as int || b
                        != ci as int) ==> self.servers@[a].channels@[b].discord_channel_id != id,
            decreases n - k,
        {
            let m = self.servers[k].channels.len();
            let mut l: usize = 0;
            while l < m
                invariant
                    n == self.servers@.len(),
                    k < n,
                    m == self.servers@[k as int].channels@.len(),
                    l <= m,
                    si < n,
                    ci < self.servers@[si as int].channels@.len(),
                    id == self.servers@[si as int].channels@[ci as int].discord_channel_id,
                    forall|a: int, b: int|
                        0 <= a < k && 0 <= b < self.servers@[a].channels@.len() && (a != si as int
                            || b != ci as int) ==> self.servers@[a].channels@[b].discord_channel_id
                            != id,
                    forall|b: int|
                        0 <= b < l && (k as int != si as int || b != ci as int)
                            ==> self.servers@[k as int].channels@[b].discord_channel_id != id,
                decreases m - l,
            {
                if !(k == si && l == ci) && self.servers[k].channels[l].discord_channel_id == id {
                    proof {
                        assert(self.servers@[k as int].channels@[l as int].discord_channel_id
                            == id);
                    }
                    return true;
                }
                l += 1;
            }
            k += 1;
        }
        proof {
            if self.spec_id_elsewhere(si as int, ci as int) {
                let (a, b) = choose|a: int, b: int|
                    0 <= a < self.servers@.len() && 0 <= b < self.servers@[a].channels@.len() && (a
                        != si as int || b != ci as int)
                        && self.servers@[a].channels@[b].discord_channel_id == id;
                assert(self.servers@[a].channels@[b].discord_channel_id != id);
            }
        }
        false
    }

    /// Whether no two servers of the store share a host.
    fn hosts_unique_exec(&self) -> (r: bool)
        ensures
            r == self.hosts_unique(),
    {
        let n = self.servers.len();
        let mut a: usize = 0;
        while a < n
            invariant
                n == self.servers@.len(),
                a <= n,
                forall|x: int, y: int|
                    0 <= x < y < n && x < a ==> self.servers@[x].host@ != self.servers@[y].host@,
            decreases n - a,
        {
            let mut b: usize = a + 1;
            while b < n
                invariant
                    n == self.servers@.len(),
                    a < b <= n,
                    forall|x: int, y: int|
                        0 <= x < y < n && x < a ==> self.servers@[x].host@
                            != self.servers@[y].host@,
                    forall|y: int|
                        a < y < b ==> self.servers@[a as int].host@ != self.servers@[y].host@,
                decreases n - b,
            {
                if self.servers[a].host == self.servers[b].host {
                    proof {
                        assert(self.servers@[a as int].host@ == self.servers@[b as int].host@);
                    }
                    return false;
                }
                b += 1;
            }
            a += 1;
        }
        true
    }

    /// Whether, within every server of the store, channel names are unique.
    fn all_names_unique_exec(&self) -> (r: bool)
        ensures
            r == self.all_channel_names_unique(),
    {
        let n = self.servers.len();
        let mut i: usize = 0;
        while i < n
            invariant
                n == self.servers@.len(),
                i <= n,
                forall|k: int| 0 <= k < i ==> self.servers@[k].channel_names_unique(),
            decreases n - i,
        {
            if !names_unique_exec(&self.servers[i]) {
                return false;
            }
            i += 1;
        }
        true
    }

    /// Whether no two channel entries anywhere in the store share a Discord id.
    fn ids_unique_exec(&self) -> (r: bool)
        ensures
            r == self.channel_ids_unique(),
    {
        let n = self.servers.len();
        let mut i: usize = 0;
        while i < n
            invariant
                n == self.servers@.len(),
                i <= n,
                forall|k: int, l: int|
                    0 <= k < i && 0 <= l < self.servers@[k].channels@.len()
                        ==> !self.spec_id_elsewhere(k, l),
            decreases n - i,
        {
            let m = self.servers[i].channels.len();
            let mut j: usize = 0;
            while j < m
                invariant
                    n == self.servers@.len(),
                    i < n,
                    m == self.servers@[i as int].channels@.len(),
                    j <= m,
                    forall|k: int, l: int|
                        0 <= k < i && 0 <= l < self.servers@[k].channels@.len()
                            ==> !self.spec_id_elsewhere(k, l),
                    forall|l: int| 0 <= l < j ==> !self.spec_id_elsewhere(i as int, l),
                decreases m - j,
            {
                if self.id_used_elsewhere(i, j) {
                    proof {
                        self.lemma_ids_unique_iff();
                    }
                    return false;
                }
                j += 1;
            }
            i += 1;
        }
        proof {
            self.lemma_ids_unique_iff();
        }
        true
    }

    /// Discord ids are pairwise distinct exactly when no entry's id occurs
    /// at any other position.
    proof fn lemma_ids_unique_iff(&self)
        ensures
            self.channel_ids_unique() <==> (forall|k: int, l: int|
                0 <= k < self.servers@.len() && 0 <= l < self.servers@[k].channels@.len()
                    ==> !self.spec_id_elsewhere(k, l)),
    {
        if self.channel_ids_unique() {
            assert forall|k: int, l: int|
                0 <= k < self.servers@.len() && 0 <= l
                    < self.servers@[k].channels@.len() implies !self.spec_id_elsewhere(k, l) by {
                if self.spec_id_elsewhere(k, l) {
                    let (a, b) = choose|a: int, b: int|
                        0 <= a < self.servers@.len() && 0 <= b < self.servers@[a].channels@.len()
                            && (a != k || b != l) && self.servers@[a].channels@[b].discord_channel_id
                            == self.servers@[k].channels@[l].discord_channel_id;
                    assert(self.servers@[a].channels@[b].discord_channel_id
                        != self.servers@[k].channels@[l].discord_channel_id);
                }
            }
        }
        if forall|k: int, l: int|
            0 <= k < self.servers@.len() && 0 <= l < self.servers@[k].channels@.len()
                ==> !self.spec_id_elsewhere(k, l) {
            assert forall|k1: int, l1: int, k2: int, l2: int|
                #![trigger self.servers@[k1].channels@[l1], self.servers@[k2].channels@[l2]]
                0 <= k1 < self.servers@.len() && 0 <= l1 < self.servers@[k1].channels@.len() && 0
                    <= k2 < self.servers@.len() && 0 <= l2 < self.servers@[k2].channels@.len() && (
                k1 != k2 || l1 != l2) implies self.servers@[k1].channels@[l1].discord_channel_id
                != self.servers@[k2].channels@[l2].discord_channel_id by {
                assert(!self.spec_id_elsewhere(k1, l1));
                if self.servers@[k1].channels@[l1].discord_channel_id
                    == self.servers@[k2].channels@[l2].discord_channel_id {
                    assert(self.spec_id_elsewhere(k1, l1));
                }
            }
        }
    }

    /// Whether the store satisfies its invariant; used to validate a store
    /// loaded from durable storage before the router takes ownership of it.
    pub fn check_wf(&self) -> (r: bool)
        ensures
            r == self.wf(),
    {
        if !self.hosts_unique_exec() {
            return false;
        }
        if !self.all_names_unique_exec() {
            return false;
        }
        if !self.ids_unique_exec() {
            return false;
        }
        true
    }
}

/// Whether no two channel entries of this server share a name.
fn names_unique_exec(server: &Server) -> (r: bool)
    ensures
        r == server.channel_names_unique(),
{
    let n = server.channels.len();
    let mut a: usize = 0;
    while a < n
        invariant
            n == server.channels@.len(),
            a <= n,
            forall|x: int, y: int|
                0 <= x < y < n && x < a ==> server.channels@[x].name@ != server.channels@[y].name@,
        decreases n - a,
    {
        let mut b: usize = a + 1;
        while b < n
            invariant
                n == server.channels@.len(),
                a < b <= n,
                forall|x: int, y: int|
                    0 <= x < y < n && x < a ==> server.channels@[x].name@
                        != server.channels@[y].name@,
                forall|y: int|
                    a < y < b ==> server.channels@[a as int].name@ != server.channels@[y].name@,
            decreases n - b,
        {
            if server.channels[a].name == server.channels[b].name {
                proof {
                    assert(server.channels@[a as int].name@ == server.channels@[b as int].name@);
                }
                return false;
            }
            b += 1;
        }
        a += 1;
    }
    true
}

/// Uniqueness invariant of the mapping store: no two channel entries
/// store-wide share a Discord channel id, and no two channels within one
/// server share a name. The router's mutations preserve well-formedness, so
/// every store they produce satisfies both.
pub proof fn uniqueness_invariant(c: Config)
    requires
        c.wf(),
    ensures
        forall|k1: int, l1: int, k2: int, l2: int|
            #![trigger c.servers@[k1].channels@[l1], c.servers@[k2].channels@[l2]]
            0 <= k1 < c.servers@.len() && 0 <= l1 < c.servers@[k1].channels@.len() && 0 <= k2
                < c.servers@.len() && 0 <= l2 < c.servers@[k2].channels@.len() && (k1 != k2 || l1
                != l2) ==> c.servers@[k1].channels@[l1].discord_channel_id
                != c.servers@[k2].channels@[l2].discord_channel_id,
        forall|i: int, a: int, b: int|
            0 <= i < c.servers@.len() && 0 <= a < b < c.servers@[i].channels@.len()
                ==> c.servers@[i].channels@[a].name@ != c.servers@[i].channels@[b].name@,
{
    assert forall|i: int, a: int, b: int|
        0 <= i < c.servers@.len() && 0 <= a < b
            < c.servers@[i].channels@.len() implies c.servers@[i].channels@[a].name@
        != c.servers@[i].channels@[b].name@ by {
        assert(c.servers@[i].channel_names_unique());
    }
}

/// The server that carries a host is unique, so its position is exactly the
/// one the store's specification designates.
pub proof fn lemma_server_index_is(c: Config, host: Seq<char>, i: int)
    requires
        c.hosts_unique(),
        0 <= i < c.servers@.len(),
        c.servers@[i].host@ == host,
    ensures
        c.spec_has_server(host),
        c.spec_server_index(host) == i,
{
    assert(c.spec_has_server(host));
    let w = c.spec_server_index(host);
    assert(0 <= w < c.servers@.len() && c.servers@[w].host@ == host);
    if w < i {
        assert(c.servers@[w].host@ != c.servers@[i].host@);
    } else if i < w {
        assert(c.servers@[i].host@ != c.servers@[w].host@);
    }
}

} // verus!
