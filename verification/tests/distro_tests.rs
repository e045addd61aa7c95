use uni_runtime::distro::Distro;

const ALL: [Distro; 9] = [
    Distro::Ubuntu2204,
    Distro::Ubuntu2404,
    Distro::Debian12,
    Distro::Fedora39,
    Distro::Fedora40,
    Distro::Rhel9,
    Distro::Archlinux,
    Distro::OpensuseTumbleweed,
    Distro::OpensuseLeap,
];

#[test]
fn identifiers_read_back_as_the_same_distro() {
    for d in ALL.iter() {
        assert_eq!(Distro::from_str(d.as_str()), Some(*d));
    }
}

#[test]
fn identifiers_are_distinct() {
    for (i, a) in ALL.iter().enumerate() {
        for (j, b) in ALL.iter().enumerate() {
            assert_eq!(i == j, a.as_str() == b.as_str());
        }
    }
}

#[test]
fn unknown_names_are_refused() {
    assert_eq!(Distro::from_str(""), None);
    assert_eq!(Distro::from_str("ubuntu"), None);
    assert_eq!(Distro::from_str("Ubuntu-22.04"), None);
    assert_eq!(Distro::from_str("ubuntu-22.04 "), None);
    assert_eq!(Distro::from_str("gentoo"), None);
}

#[test]
fn readme_table_of_distributions() {
    assert_eq!(Distro::from_str("ubuntu-22.04"), Some(Distro::Ubuntu2204));
    assert_eq!(Distro::Ubuntu2204.pkg_manager(), "apt");
    assert_eq!(Distro::Ubuntu2404.pkg_manager(), "apt");
    assert_eq!(Distro::Debian12.pkg_manager(), "apt");
    assert_eq!(Distro::Fedora39.pkg_manager(), "dnf");
    assert_eq!(Distro::Fedora40.pkg_manager(), "dnf");
    assert_eq!(Distro::Rhel9.pkg_manager(), "dnf");
    assert_eq!(Distro::Archlinux.pkg_manager(), "pacman");
    assert_eq!(Distro::OpensuseTumbleweed.pkg_manager(), "zypper");
    assert_eq!(Distro::OpensuseLeap.pkg_manager(), "zypper");
    assert_eq!(Distro::from_str("opensuse-tumbleweed"), Some(Distro::OpensuseTumbleweed));
}

#[test]
fn images_and_releases() {
    assert_eq!(Distro::Ubuntu2204.docker_image(), "ubuntu:22.04");
    assert_eq!(Distro::Rhel9.docker_image(), "registry.access.redhat.com/ubi9:latest");
    assert_eq!(Distro::OpensuseLeap.docker_image(), "opensuse/leap:latest");
    assert_eq!(Distro::Ubuntu2404.release_name(), "noble");
    assert_eq!(Distro::Debian12.release_name(), "bookworm");
    assert_eq!(Distro::Archlinux.release_name(), "rolling");
}

#[test]
fn lightweight_files() {
    assert_eq!(
        Distro::Debian12.os_release(),
        "NAME=\"Debian GNU/Linux\"\nPRETTY_NAME=\"Debian GNU/Linux 12 (bookworm)\"\nID=debian\nVERSION_ID=\"12\"\n"
    );
    assert_eq!(
        Distro::Fedora40.pkg_manager_stub(),
        "#!/bin/bash\nexec /usr/bin/dnf.real \"$@\"\n"
    );
    assert!(Distro::Archlinux.pkg_manager_stub().contains("pacman.real"));
}
