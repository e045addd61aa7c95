use vstd::prelude::*;

use crate::text::str_eq;

verus! {

/// A Linux distribution that an environment can be built from.
#[derive(Clone, Copy, Debug, PartialEq, Eq, Structural)]
pub enum Distro {
    Ubuntu2204,
    Ubuntu2404,
    Debian12,
    Fedora39,
    Fedora40,
    Rhel9,
    Archlinux,
    OpensuseTumbleweed,
    OpensuseLeap,
}

/// The identifier under which a distribution is named on the command line and
/// in the configuration file.
pub open spec fn distro_name(d: Distro) -> Seq<char> {
    match d {
        Distro::Ubuntu2204 => "ubuntu-22.04"@,
        Distro::Ubuntu2404 => "ubuntu-24.04"@,
        Distro::Debian12 => "debian-12"@,
        Distro::Fedora39 => "fedora-39"@,
        Distro::Fedora40 => "fedora-40"@,
        Distro::Rhel9 => "rhel-9"@,
        Distro::Archlinux => "archlinux"@,
        Distro::OpensuseTumbleweed => "opensuse-tumbleweed"@,
        Distro::OpensuseLeap => "opensuse-leap"@,
    }
}

/// The distribution whose identifier is `s`, if any.
pub open spec fn distro_named(s: Seq<char>) -> Option<Distro> {
    if s == "ubuntu-22.04"@ {
        Some(Distro::Ubuntu2204)
    } else if s == "ubuntu-24.04"@ {
        Some(Distro::Ubuntu2404)
    } else if s == "debian-12"@ {
        Some(Distro::Debian12)
    } else if s == "fedora-39"@ {
        Some(Distro::Fedora39)
    } else if s == "fedora-40"@ {
        Some(Distro::Fedora40)
    } else if s == "rhel-9"@ {
        Some(Distro::Rhel9)
    } else if s == "archlinux"@ {
        Some(Distro::Archlinux)
    } else if s == "opensuse-tumbleweed"@ {
        Some(Distro::OpensuseTumbleweed)
    } else if s == "opensuse-leap"@ {
        Some(Distro::OpensuseLeap)
    } else {
        None
    }
}

/// The container image a distribution's root file system is exported from.
pub open spec fn distro_image(d: Distro) -> Seq<char> {
    match d {
        Distro::Ubuntu2204 => "ubuntu:22.04"@,
        Distro::Ubuntu2404 => "ubuntu:24.04"@,
        Distro::Debian12 => "debian:12"@,
        Distro::Fedora39 => "fedora:39"@,
        Distro::Fedora40 => "fedora:40"@,
        Distro::Rhel9 => "registry.access.redhat.com/ubi9:latest"@,
        Distro::Archlinux => "archlinux:latest"@,
        Distro::OpensuseTumbleweed => "opensuse/tumbleweed:latest"@,
        Distro::OpensuseLeap => "opensuse/leap:latest"@,
    }
}

/// The native package manager of a distribution.
pub open spec fn distro_pkg_manager(d: Distro) -> Seq<char> {
    match d {
        Distro::Ubuntu2204 | Distro::Ubuntu2404 | Distro::Debian12 => "apt"@,
        Distro::Fedora39 | Distro::Fedora40 | Distro::Rhel9 => "dnf"@,
        Distro::Archlinux => "pacman"@,
        Distro::OpensuseTumbleweed | Distro::OpensuseLeap => "zypper"@,
    }
}

/// The release name of a distribution.
pub open spec fn distro_release(d: Distro) -> Seq<char> {
    match d {
        Distro::Ubuntu2204 => "jammy"@,
        Distro::Ubuntu2404 => "noble"@,
        Distro::Debian12 => "bookworm"@,
        Distro::Fedora39 => "39"@,
        Distro::Fedora40 => "40"@,
        Distro::Rhel9 => "9"@,
        Distro::Archlinux => "rolling"@,
        Distro::OpensuseTumbleweed => "tumbleweed"@,
        Distro::OpensuseLeap => "leap"@,
    }
}

/// The `/etc/os-release` written into a lightweight environment.
pub open spec fn distro_os_release(d: Distro) -> Seq<char> {
    match d {
        Distro::Archlinux => "NAME=\"Arch Linux\"\nPRETTY_NAME=\"Arch Linux\"\nID=arch\nVERSION_ID=\"rolling\"\n"@,
        Distro::Ubuntu2204 => "NAME=\"Ubuntu\"\nPRETTY_NAME=\"Ubuntu 22.04 LTS\"\nID=ubuntu\nVERSION_ID=\"22.04\"\n"@,
        Distro::Ubuntu2404 => "NAME=\"Ubuntu\"\nPRETTY_NAME=\"Ubuntu 24.04 LTS\"\nID=ubuntu\nVERSION_ID=\"24.04\"\n"@,
        Distro::Debian12 => "NAME=\"Debian GNU/Linux\"\nPRETTY_NAME=\"Debian GNU/Linux 12 (bookworm)\"\nID=debian\nVERSION_ID=\"12\"\n"@,
        Distro::Fedora39 => "NAME=\"Fedora Linux\"\nPRETTY_NAME=\"Fedora Linux 39\"\nID=fedora\nVERSION_ID=\"39\"\n"@,
        Distro::Fedora40 => "NAME=\"Fedora Linux\"\nPRETTY_NAME=\"Fedora Linux 40\"\nID=fedora\nVERSION_ID=\"40\"\n"@,
        Distro::OpensuseTumbleweed => "NAME=\"openSUSE Tumbleweed\"\nPRETTY_NAME=\"openSUSE Tumbleweed\"\nID=opensuse-tumbleweed\n"@,
        Distro::OpensuseLeap => "NAME=\"openSUSE Leap\"\nPRETTY_NAME=\"openSUSE Leap\"\nID=opensuse-leap\n"@,
        Distro::Rhel9 => "NAME=\"Red Hat Enterprise Linux\"\nPRETTY_NAME=\"Red Hat Enterprise Linux 9\"\nID=rhel\nVERSION_ID=\"9\"\n"@,
    }
}

/// The wrapper script installed in place of a lightweight environment's
/// package manager.
pub open spec fn distro_pkg_stub(d: Distro) -> Seq<char> {
    match d {
        Distro::Archlinux => "#!/bin/bash\nset -e\nif [ ! -f /var/lib/pacman/db.lck ]; then\n    touch /var/lib/pacman/db.lck\nfi\nexec /usr/bin/pacman.real \"$@\"\n"@,
        Distro::Ubuntu2204 | Distro::Ubuntu2404 | Distro::Debian12 => "#!/bin/bash\nexec /usr/bin/apt.real \"$@\"\n"@,
        Distro::Fedora39 | Distro::Fedora40 | Distro::Rhel9 => "#!/bin/bash\nexec /usr/bin/dnf.real \"$@\"\n"@,
        Distro::OpensuseTumbleweed | Distro::OpensuseLeap => "#!/bin/bash\nexec /usr/bin/zypper.real \"$@\"\n"@,
    }
}

impl Distro {
    /// The distribution's identifier, such as `ubuntu-22.04`.
    pub fn as_str(&self) -> (s: &'static str)
        ensures
            s@ == distro_name(*self),
    {
        match self {
            Distro::Ubuntu2204 => "ubuntu-22.04",
            Distro::Ubuntu2404 => "ubuntu-24.04",
            Distro::Debian12 => "debian-12",
            Distro::Fedora39 => "fedora-39",
            Distro::Fedora40 => "fedora-40",
            Distro::Rhel9 => "rhel-9",
            Distro::Archlinux => "archlinux",
            Distro::OpensuseTumbleweed => "opensuse-tumbleweed",
            Distro::OpensuseLeap => "opensuse-leap",
        }
    }

    /// The distribution whose identifier is `s`; `None` for any other text.
    pub fn from_str(s: &str) -> (d: Option<Distro>)
        ensures
            d == distro_named(s@),
    {
        if str_eq(s, "ubuntu-22.04") {
            Some(Distro::Ubuntu2204)
        } else if str_eq(s, "ubuntu-24.04") {
            Some(Distro::Ubuntu2404)
        } else if str_eq(s, "debian-12") {
            Some(Distro::Debian12)
        } else if str_eq(s, "fedora-39") {
            Some(Distro::Fedora39)
        } else if str_eq(s, "fedora-40") {
            Some(Distro::Fedora40)
        } else if str_eq(s, "rhel-9") {
            Some(Distro::Rhel9)
        } else if str_eq(s, "archlinux") {
            Some(Distro::Archlinux)
        } else if str_eq(s, "opensuse-tumbleweed") {
            Some(Distro::OpensuseTumbleweed)
        } else if str_eq(s, "opensuse-leap") {
            Some(Distro::OpensuseLeap)
        } else {
            None
        }
    }

    /// The container image the distribution's root file system comes from.
    pub fn docker_image(&self) -> (s: &'static str)
        ensures
            s@ == distro_image(*self),
    {
        match self {
            Distro::Ubuntu2204 => "ubuntu:22.04",
            Distro::Ubuntu2404 => "ubuntu:24.04",
            Distro::Debian12 => "debian:12",
            Distro::Fedora39 => "fedora:39",
            Distro::Fedora40 => "fedora:40",
            Distro::Rhel9 => "registry.access.redhat.com/ubi9:latest",
            Distro::Archlinux => "archlinux:latest",
            Distro::OpensuseTumbleweed => "opensuse/tumbleweed:latest",
            Distro::OpensuseLeap => "opensuse/leap:latest",
        }
    }

    /// The distribution's package manager.
    pub fn pkg_manager(&self) -> (s: &'static str)
        ensures
            s@ == distro_pkg_manager(*self),
    {
        match self {
            Distro::Ubuntu2204 | Distro::Ubuntu2404 | Distro::Debian12 => "apt",
            Distro::Fedora39 | Distro::Fedora40 | Distro::Rhel9 => "dnf",
            Distro::Archlinux => "pacman",
            Distro::OpensuseTumbleweed | Distro::OpensuseLeap => "zypper",
        }
    }

    /// The distribution's release name.
    pub fn release_name(&self) -> (s: &'static str)
        ensures
            s@ == distro_release(*self),
    {
        match self {
            Distro::Ubuntu2204 => "jammy",
            Distro::Ubuntu2404 => "noble",
            Distro::Debian12 => "bookworm",
            Distro::Fedora39 => "39",
            Distro::Fedora40 => "40",
            Distro::Rhel9 => "9",
            Distro::Archlinux => "rolling",
            Distro::OpensuseTumbleweed => "tumbleweed",
            Distro::OpensuseLeap => "leap",
        }
    }

    /// The contents of `/etc/os-release` in a lightweight environment.
    pub fn os_release(&self) -> (s: &'static str)
        ensures
            s@ == distro_os_release(*self),
    {
        match self {
            Distro::Archlinux => "NAME=\"Arch Linux\"\nPRETTY_NAME=\"Arch Linux\"\nID=arch\nVERSION_ID=\"rolling\"\n",
            Distro::Ubuntu2204 => "NAME=\"Ubuntu\"\nPRETTY_NAME=\"Ubuntu 22.04 LTS\"\nID=ubuntu\nVERSION_ID=\"22.04\"\n",
            Distro::Ubuntu2404 => "NAME=\"Ubuntu\"\nPRETTY_NAME=\"Ubuntu 24.04 LTS\"\nID=ubuntu\nVERSION_ID=\"24.04\"\n",
            Distro::Debian12 => "NAME=\"Debian GNU/Linux\"\nPRETTY_NAME=\"Debian GNU/Linux 12 (bookworm)\"\nID=debian\nVERSION_ID=\"12\"\n",
            Distro::Fedora39 => "NAME=\"Fedora Linux\"\nPRETTY_NAME=\"Fedora Linux 39\"\nID=fedora\nVERSION_ID=\"39\"\n",
            Distro::Fedora40 => "NAME=\"Fedora Linux\"\nPRETTY_NAME=\"Fedora Linux 40\"\nID=fedora\nVERSION_ID=\"40\"\n",
            Distro::OpensuseTumbleweed => "NAME=\"openSUSE Tumbleweed\"\nPRETTY_NAME=\"openSUSE Tumbleweed\"\nID=opensuse-tumbleweed\n",
            Distro::OpensuseLeap => "NAME=\"openSUSE Leap\"\nPRETTY_NAME=\"openSUSE Leap\"\nID=opensuse-leap\n",
            Distro::Rhel9 => "NAME=\"Red Hat Enterprise Linux\"\nPRETTY_NAME=\"Red Hat Enterprise Linux 9\"\nID=rhel\nVERSION_ID=\"9\"\n",
        }
    }

    /// The script that stands in for the package manager in a lightweight
    /// environment.
    pub fn pkg_manager_stub(&self) -> (s: &'static str)
        ensures
            s@ == distro_pkg_stub(*self),
    {
        match self {
            Distro::Archlinux => "#!/bin/bash\nset -e\nif [ ! -f /var/lib/pacman/db.lck ]; then\n    touch /var/lib/pacman/db.lck\nfi\nexec /usr/bin/pacman.real \"$@\"\n",
            Distro::Ubuntu2204 | Distro::Ubuntu2404 | Distro::Debian12 => "#!/bin/bash\nexec /usr/bin/apt.real \"$@\"\n",
            Distro::Fedora39 | Distro::Fedora40 | Distro::Rhel9 => "#!/bin/bash\nexec /usr/bin/dnf.real \"$@\"\n",
            Distro::OpensuseTumbleweed | Distro::OpensuseLeap => "#!/bin/bash\nexec /usr/bin/zypper.real \"$@\"\n",
        }
    }
}

/// Reading a distribution's identifier back gives the distribution.
pub proof fn lemma_name_round_trip(d: Distro)
    ensures
        distro_named(distro_name(d)) == Some(d),
{
    reveal_strlit("ubuntu-22.04");
    reveal_strlit("ubuntu-24.04");
    reveal_strlit("debian-12");
    reveal_strlit("fedora-39");
    reveal_strlit("fedora-40");
    reveal_strlit("rhel-9");
    reveal_strlit("archlinux");
    reveal_strlit("opensuse-tumbleweed");
    reveal_strlit("opensuse-leap");
    assert("ubuntu-22.04"@.len() == 12 && "ubuntu-22.04"@[0] == 'u');
    assert("ubuntu-24.04"@.len() == 12 && "ubuntu-24.04"@[0] == 'u');
    assert("debian-12"@.len() == 9 && "debian-12"@[0] == 'd');
    assert("fedora-39"@.len() == 9 && "fedora-39"@[0] == 'f');
    assert("fedora-40"@.len() == 9 && "fedora-40"@[0] == 'f');
    assert("rhel-9"@.len() == 6 && "rhel-9"@[0] == 'r');
    assert("archlinux"@.len() == 9 && "archlinux"@[0] == 'a');
    assert("opensuse-tumbleweed"@.len() == 19 && "opensuse-tumbleweed"@[0] == 'o');
    assert("opensuse-leap"@.len() == 13 && "opensuse-leap"@[0] == 'o');
    assert("ubuntu-22.04"@[8] == '2' && "ubuntu-24.04"@[8] == '4');
    assert("fedora-39"@[7] == '3' && "fedora-40"@[7] == '4');
}

/// Only the identifiers of distributions are read as distributions, and each
/// is read as the distribution it names.
pub proof fn lemma_named_is_canonical(s: Seq<char>)
    ensures
        distro_named(s) matches Some(d) ==> distro_name(d) == s,
{
}

/// No two distributions share an identifier.
pub proof fn lemma_name_injective(a: Distro, b: Distro)
    ensures
        distro_name(a) == distro_name(b) ==> a == b,
{
    lemma_name_round_trip(a);
    lemma_name_round_trip(b);
}


/// `s` begins with `p`.
pub open spec fn begins_with(s: Seq<char>, p: Seq<char>) -> bool {
    p.len() <= s.len() && s.take(p.len() as int) == p
}

/// `s` ends with `p`.
pub open spec fn ends_with(s: Seq<char>, p: Seq<char>) -> bool {
    p.len() <= s.len() && s.skip(s.len() - p.len()) == p
}

/// Each identifier names its own distribution: `ubuntu-22.04` is Ubuntu
/// 22.04, `rhel-9` is RHEL 9, and so on for every supported one.
pub proof fn lemma_identifiers_name_their_distro(s: Seq<char>)
    ensures
        distro_named(s) == Some(Distro::Ubuntu2204) <==> s == "ubuntu-22.04"@,
        distro_named(s) == Some(Distro::Ubuntu2404) <==> s == "ubuntu-24.04"@,
        distro_named(s) == Some(Distro::Debian12) <==> s == "debian-12"@,
        distro_named(s) == Some(Distro::Fedora39) <==> s == "fedora-39"@,
        distro_named(s) == Some(Distro::Fedora40) <==> s == "fedora-40"@,
        distro_named(s) == Some(Distro::Rhel9) <==> s == "rhel-9"@,
        distro_named(s) == Some(Distro::Archlinux) <==> s == "archlinux"@,
        distro_named(s) == Some(Distro::OpensuseTumbleweed) <==> s == "opensuse-tumbleweed"@,
        distro_named(s) == Some(Distro::OpensuseLeap) <==> s == "opensuse-leap"@,
{
    lemma_name_round_trip(Distro::Ubuntu2204);
    lemma_name_round_trip(Distro::Ubuntu2404);
    lemma_name_round_trip(Distro::Debian12);
    lemma_name_round_trip(Distro::Fedora39);
    lemma_name_round_trip(Distro::Fedora40);
    lemma_name_round_trip(Distro::Rhel9);
    lemma_name_round_trip(Distro::Archlinux);
    lemma_name_round_trip(Distro::OpensuseTumbleweed);
    lemma_name_round_trip(Distro::OpensuseLeap);
    lemma_named_is_canonical(s);
}

/// An identifier's family tells the package manager: `ubuntu-` and
/// `debian-` identifiers use apt, `fedora-` and `rhel-` ones dnf,
/// `archlinux` pacman, and `opensuse-` ones zypper.
pub proof fn lemma_family_tells_pkg_manager(d: Distro)
    ensures
        distro_pkg_manager(d) == "apt"@ <==> (begins_with(distro_name(d), "ubuntu-"@)
            || begins_with(distro_name(d), "debian-"@)),
        distro_pkg_manager(d) == "dnf"@ <==> (begins_with(distro_name(d), "fedora-"@)
            || begins_with(distro_name(d), "rhel-"@)),
        distro_pkg_manager(d) == "pacman"@ <==> distro_name(d) == "archlinux"@,
        distro_pkg_manager(d) == "zypper"@ <==> begins_with(distro_name(d), "opensuse-"@),
{
    reveal_strlit("ubuntu-22.04");
    reveal_strlit("ubuntu-24.04");
    reveal_strlit("debian-12");
    reveal_strlit("fedora-39");
    reveal_strlit("fedora-40");
    reveal_strlit("rhel-9");
    reveal_strlit("archlinux");
    reveal_strlit("opensuse-tumbleweed");
    reveal_strlit("opensuse-leap");
    reveal_strlit("ubuntu-");
    reveal_strlit("debian-");
    reveal_strlit("fedora-");
    reveal_strlit("rhel-");
    reveal_strlit("opensuse-");
    reveal_strlit("apt");
    reveal_strlit("dnf");
    reveal_strlit("pacman");
    reveal_strlit("zypper");
    let n = distro_name(d);
    assert("apt"@[0] == 'a' && "dnf"@[0] == 'd' && "pacman"@[0] == 'p' && "zypper"@[0] == 'z');
    assert("archlinux"@[0] == 'a');
    assert(n != "archlinux"@ ==> d != Distro::Archlinux);
    if d != Distro::Archlinux {
        assert(n[0] != 'a' || n.len() != 9);
        assert(n != "archlinux"@);
    }
    match d {
        Distro::Ubuntu2204 => {
            assert(n.take(7) =~= "ubuntu-"@);
            assert(n.take(7)[0] != "debian-"@[0]);
            assert(n.take(7)[0] != "fedora-"@[0]);
            assert(n.take(5)[0] != "rhel-"@[0]);
            assert(n.take(9)[0] != "opensuse-"@[0]);
        },
        Distro::Ubuntu2404 => {
            assert(n.take(7) =~= "ubuntu-"@);
            assert(n.take(7)[0] != "debian-"@[0]);
            assert(n.take(7)[0] != "fedora-"@[0]);
            assert(n.take(5)[0] != "rhel-"@[0]);
            assert(n.take(9)[0] != "opensuse-"@[0]);
        },
        Distro::Debian12 => {
            assert(n.take(7) =~= "debian-"@);
            assert(n.take(7)[0] != "ubuntu-"@[0]);
            assert(n.take(7)[0] != "fedora-"@[0]);
            assert(n.take(5)[0] != "rhel-"@[0]);
            assert(n.take(9)[0] != "opensuse-"@[0]);
        },
        Distro::Fedora39 => {
            assert(n.take(7) =~= "fedora-"@);
            assert(n.take(7)[0] != "ubuntu-"@[0]);
            assert(n.take(7)[0] != "debian-"@[0]);
            assert(n.take(5)[0] != "rhel-"@[0]);
            assert(n.take(9)[0] != "opensuse-"@[0]);
        },
        Distro::Fedora40 => {
            assert(n.take(7) =~= "fedora-"@);
            assert(n.take(7)[0] != "ubuntu-"@[0]);
            assert(n.take(7)[0] != "debian-"@[0]);
            assert(n.take(5)[0] != "rhel-"@[0]);
            assert(n.take(9)[0] != "opensuse-"@[0]);
        },
        Distro::Rhel9 => {
            assert(n.take(5) =~= "rhel-"@);
        },
        Distro::Archlinux => {
            assert(n.take(7)[0] != "ubuntu-"@[0]);
            assert(n.take(7)[0] != "debian-"@[0]);
            assert(n.take(7)[0] != "fedora-"@[0]);
            assert(n.take(5)[0] != "rhel-"@[0]);
            assert(n.take(9)[0] != "opensuse-"@[0]);
        },
        Distro::OpensuseTumbleweed => {
            assert(n.take(9) =~= "opensuse-"@);
            assert(n.take(7)[0] != "ubuntu-"@[0]);
            assert(n.take(7)[0] != "debian-"@[0]);
            assert(n.take(7)[0] != "fedora-"@[0]);
            assert(n.take(5)[0] != "rhel-"@[0]);
        },
        Distro::OpensuseLeap => {
            assert(n.take(9) =~= "opensuse-"@);
            assert(n.take(7)[0] != "ubuntu-"@[0]);
            assert(n.take(7)[0] != "debian-"@[0]);
            assert(n.take(7)[0] != "fedora-"@[0]);
            assert(n.take(5)[0] != "rhel-"@[0]);
        },
    }
}


/// A versioned distribution (Ubuntu, Debian, Fedora) is built from the image
/// of its family tagged with its version: the identifier with its `-`
/// turned into `:` (`ubuntu-24.04` from `ubuntu:24.04`); the others from a
/// `latest` image.
pub proof fn lemma_image_follows_identifier(d: Distro)
    ensures
        (begins_with(distro_name(d), "ubuntu-"@) || begins_with(distro_name(d), "debian-"@)
            || begins_with(distro_name(d), "fedora-"@)) ==> (distro_name(d)[6] == '-'
            && distro_image(d) == distro_name(d).take(6) + seq![':'] + distro_name(d).skip(7)),
        !(begins_with(distro_name(d), "ubuntu-"@) || begins_with(distro_name(d), "debian-"@)
            || begins_with(distro_name(d), "fedora-"@)) ==> ends_with(distro_image(d), ":latest"@),
{
    lemma_family_tells_pkg_manager(d);
    reveal_strlit("ubuntu-22.04");
    reveal_strlit("ubuntu-24.04");
    reveal_strlit("debian-12");
    reveal_strlit("fedora-39");
    reveal_strlit("fedora-40");
    reveal_strlit("ubuntu:22.04");
    reveal_strlit("ubuntu:24.04");
    reveal_strlit("debian:12");
    reveal_strlit("fedora:39");
    reveal_strlit("fedora:40");
    reveal_strlit("registry.access.redhat.com/ubi9:latest");
    reveal_strlit("archlinux:latest");
    reveal_strlit("opensuse/tumbleweed:latest");
    reveal_strlit("opensuse/leap:latest");
    reveal_strlit(":latest");
    reveal_strlit("rhel-9");
    reveal_strlit("fedora-");
    reveal_strlit("ubuntu-");
    reveal_strlit("debian-");
    reveal_strlit("apt");
    reveal_strlit("dnf");
    reveal_strlit("pacman");
    reveal_strlit("zypper");
    assert("apt"@[0] == 'a' && "dnf"@[0] == 'd' && "pacman"@[0] == 'p' && "zypper"@[0] == 'z');
    let n = distro_name(d);
    let i = distro_image(d);
    match d {
        Distro::Ubuntu2204 => {
            assert(n.take(7) =~= "ubuntu-"@);
            assert(n[6] == '-');
            assert(i =~= n.take(6) + seq![':'] + n.skip(7));
        },
        Distro::Ubuntu2404 => {
            assert(n.take(7) =~= "ubuntu-"@);
            assert(n[6] == '-');
            assert(i =~= n.take(6) + seq![':'] + n.skip(7));
        },
        Distro::Debian12 => {
            assert(n.take(7) =~= "debian-"@);
            assert(n[6] == '-');
            assert(i =~= n.take(6) + seq![':'] + n.skip(7));
        },
        Distro::Fedora39 => {
            assert(n.take(7) =~= "fedora-"@);
            assert(n[6] == '-');
            assert(i =~= n.take(6) + seq![':'] + n.skip(7));
        },
        Distro::Fedora40 => {
            assert(n.take(7) =~= "fedora-"@);
            assert(n[6] == '-');
            assert(i =~= n.take(6) + seq![':'] + n.skip(7));
        },
        Distro::Rhel9 => {
            assert(i.skip(i.len() - 7) =~= ":latest"@);
            assert(n.len() < 7);
        },
        Distro::Archlinux => {
            assert(i.skip(i.len() - 7) =~= ":latest"@);
        },
        Distro::OpensuseTumbleweed | Distro::OpensuseLeap => {
            assert(i.skip(i.len() - 7) =~= ":latest"@);
        },
    }
}

/// No two distributions are built from the same image.
pub proof fn lemma_image_injective(a: Distro, b: Distro)
    ensures
        distro_image(a) == distro_image(b) ==> a == b,
{
    reveal_strlit("ubuntu:22.04");
    reveal_strlit("ubuntu:24.04");
    reveal_strlit("debian:12");
    reveal_strlit("fedora:39");
    reveal_strlit("fedora:40");
    reveal_strlit("registry.access.redhat.com/ubi9:latest");
    reveal_strlit("archlinux:latest");
    reveal_strlit("opensuse/tumbleweed:latest");
    reveal_strlit("opensuse/leap:latest");
    let x = distro_image(a);
    let y = distro_image(b);
    if x == y && a != b {
        assert(x.len() == y.len());
        assert(x[0] == y[0]);
        assert(x[7] == y[7]);
        assert(x[8] == y[8]);
    }
}

/// The package manager's stand-in of every distribution is a bash script
/// that ends by handing all its arguments to the real package manager:
/// `exec /usr/bin/<manager>.real "$@"`.
pub proof fn lemma_stub_passes_arguments(d: Distro)
    ensures
        begins_with(distro_pkg_stub(d), "#!/bin/bash\n"@),
        ends_with(
            distro_pkg_stub(d),
            "exec /usr/bin/"@ + distro_pkg_manager(d) + ".real \"$@\"\n"@,
        ),
{
    reveal_strlit("#!/bin/bash\nset -e\nif [ ! -f /var/lib/pacman/db.lck ]; then\n    touch /var/lib/pacman/db.lck\nfi\nexec /usr/bin/pacman.real \"$@\"\n");
    reveal_strlit("#!/bin/bash\nexec /usr/bin/apt.real \"$@\"\n");
    reveal_strlit("#!/bin/bash\nexec /usr/bin/dnf.real \"$@\"\n");
    reveal_strlit("#!/bin/bash\nexec /usr/bin/zypper.real \"$@\"\n");
    reveal_strlit("#!/bin/bash\n");
    reveal_strlit("exec /usr/bin/");
    reveal_strlit(".real \"$@\"\n");
    reveal_strlit("apt");
    reveal_strlit("dnf");
    reveal_strlit("pacman");
    reveal_strlit("zypper");
    let s = distro_pkg_stub(d);
    let tail = "exec /usr/bin/"@ + distro_pkg_manager(d) + ".real \"$@\"\n"@;
    assert(s.take(12) =~= "#!/bin/bash\n"@);
    assert(s.skip(s.len() - tail.len()) =~= tail);
}


/// For Fedora, RHEL and openSUSE the release name is the identifier's last
/// part: `fedora-40` is release `40`, `opensuse-leap` release `leap`.
pub proof fn lemma_release_ends_identifier(d: Distro)
    ensures
        (begins_with(distro_name(d), "fedora-"@) || begins_with(distro_name(d), "rhel-"@)
            || begins_with(distro_name(d), "opensuse-"@)) ==> ends_with(
            distro_name(d),
            seq!['-'] + distro_release(d),
        ),
{
    lemma_family_tells_pkg_manager(d);
    reveal_strlit("apt");
    reveal_strlit("dnf");
    reveal_strlit("pacman");
    reveal_strlit("zypper");
    assert("apt"@[0] == 'a' && "dnf"@[0] == 'd' && "pacman"@[0] == 'p' && "zypper"@[0] == 'z');
    reveal_strlit("fedora-39");
    reveal_strlit("fedora-40");
    reveal_strlit("rhel-9");
    reveal_strlit("opensuse-tumbleweed");
    reveal_strlit("opensuse-leap");
    reveal_strlit("39");
    reveal_strlit("40");
    reveal_strlit("9");
    reveal_strlit("tumbleweed");
    reveal_strlit("leap");
    let n = distro_name(d);
    let t = seq!['-'] + distro_release(d);
    match d {
        Distro::Fedora39 | Distro::Fedora40 | Distro::Rhel9 | Distro::OpensuseTumbleweed
        | Distro::OpensuseLeap => {
            assert(n.skip(n.len() - t.len()) =~= t);
        },
        _ => {},
    }
}

} // verus!
