//! Choosing where a backup goes: the first removable volume with room.

use vstd::prelude::*;

verus! {

/// A mounted volume, as the system lists it.
#[derive(Debug, PartialEq, Eq)]
pub struct Volume {
    pub mount_point: String,
    pub removable: bool,
    pub available_space: u64,
}

/// A `Volume` as contracts see it.
pub struct VolumeModel {
    pub mount_point: Seq<char>,
    pub removable: bool,
    pub available_space: nat,
}

impl View for Volume {
    type V = VolumeModel;

    open spec fn view(&self) -> VolumeModel {
        VolumeModel {
            mount_point: self.mount_point@,
            removable: self.removable,
            available_space: self.available_space as nat,
        }
    }
}

/// A volume that a backup can go to, with the room on it.
#[derive(Debug, PartialEq, Eq)]
pub struct Mount {
    pub mount_point: String,
    pub available_space: u64,
}

/// A `Mount` as contracts see it.
pub struct MountModel {
    pub mount_point: Seq<char>,
    pub available_space: nat,
}

impl View for Mount {
    type V = MountModel;

    open spec fn view(&self) -> MountModel {
        MountModel {
            mount_point: self.mount_point@,
            available_space: self.available_space as nat,
        }
    }
}

/// The volumes of a list, as contracts see them.
pub open spec fn volume_models(volumes: Seq<Volume>) -> Seq<VolumeModel> {
    volumes.map_values(|volume: Volume| volume@)
}

/// The mounts of a list, as contracts see them.
pub open spec fn mount_models(mounts: Seq<Mount>) -> Seq<MountModel> {
    mounts.map_values(|mount: Mount| mount@)
}

/// A backup of `size` bytes can go to the volume: it is removable and has
/// more than `size` bytes free.
pub open spec fn is_suitable(volume: VolumeModel, size: nat) -> bool {
    volume.removable && size < volume.available_space
}

/// The suitable volumes among `volumes`, in their order.
pub open spec fn suitable(volumes: Seq<VolumeModel>, size: nat) -> Seq<MountModel>
    decreases volumes.len(),
{
    if volumes.len() == 0 {
        Seq::empty()
    } else if is_suitable(volumes.last(), size) {
        suitable(volumes.drop_last(), size).push(
            MountModel {
                mount_point: volumes.last().mount_point,
                available_space: volumes.last().available_space,
            },
        )
    } else {
        suitable(volumes.drop_last(), size)
    }
}

/// The first of the suitable volumes is the first volume of the list that is
/// suitable; there is none exactly when no volume of the list is.
pub proof fn lemma_first_fit(volumes: Seq<VolumeModel>, size: nat)
    ensures
        suitable(volumes, size).len() == 0 <==> forall|i: int|
            0 <= i < volumes.len() ==> !is_suitable(#[trigger] volumes[i], size),
        suitable(volumes, size).len() > 0 ==> exists|first: int|
            {
                &&& 0 <= first < volumes.len()
                &&& is_suitable(#[trigger] volumes[first], size)
                &&& forall|earlier: int|
                    0 <= earlier < first ==> !is_suitable(#[trigger] volumes[earlier], size)
                &&& suitable(volumes, size)[0].mount_point == volumes[first].mount_point
                &&& suitable(volumes, size)[0].available_space == volumes[first].available_space
            },
    decreases volumes.len(),
{
    if volumes.len() > 0 {
        let front = volumes.drop_last();
        lemma_first_fit(front, size);
        assert forall|i: int| 0 <= i < front.len() implies front[i] == volumes[i] by {}
        if suitable(front, size).len() > 0 {
            let first = choose|first: int|
                {
                    &&& 0 <= first < front.len()
                    &&& is_suitable(#[trigger] front[first], size)
                    &&& forall|earlier: int|
                        0 <= earlier < first ==> !is_suitable(#[trigger] front[earlier], size)
                    &&& suitable(front, size)[0].mount_point == front[first].mount_point
                    &&& suitable(front, size)[0].available_space == front[first].available_space
                };
            assert(is_suitable(volumes[first], size));
            assert forall|earlier: int| 0 <= earlier < first implies !is_suitable(
                #[trigger] volumes[earlier],
                size,
            ) by {
                assert(!is_suitable(front[earlier], size));
            }
        } else {
            assert forall|i: int| 0 <= i < front.len() implies !is_suitable(
                #[trigger] volumes[i],
                size,
            ) by {
                assert(!is_suitable(front[i], size));
            }
            if is_suitable(volumes.last(), size) {
                let last = volumes.len() - 1;
                assert(is_suitable(volumes[last], size));
            }
        }
    }
}

/// Every mount among the suitable ones has more than `size` bytes free.
pub proof fn lemma_suitable_has_room(volumes: Seq<VolumeModel>, size: nat)
    ensures
        forall|i: int|
            0 <= i < suitable(volumes, size).len() ==> size < (#[trigger] suitable(
                volumes,
                size,
            )[i]).available_space,
    decreases volumes.len(),
{
    if volumes.len() > 0 {
        let front = suitable(volumes.drop_last(), size);
        lemma_suitable_has_room(volumes.drop_last(), size);
        assert forall|i: int| 0 <= i < suitable(volumes, size).len() implies size < (
        #[trigger] suitable(volumes, size)[i]).available_space by {
            if i < front.len() {
                assert(suitable(volumes, size)[i] == front[i]);
            }
        }
    }
}

/// The volumes a backup of `size` bytes can go to, in the order of the list.
pub fn suitable_mounts(volumes: &Vec<Volume>, size: u64) -> (mounts: Vec<Mount>)
    ensures
        mount_models(mounts@) == suitable(volume_models(volumes@), size as nat),
{
    let ghost all = volume_models(volumes@);
    let mut mounts: Vec<Mount> = Vec::new();
    let count: usize = volumes.len();
    let mut index: usize = 0;
    while index < count
        invariant
            count == volumes@.len(),
            index <= count,
            all == volume_models(volumes@),
            mount_models(mounts@) == suitable(all.subrange(0, index as int), size as nat),
        decreases count - index,
    {
        let ghost further = all.subrange(0, index + 1);
        assert(further.drop_last() == all.subrange(0, index as int));
        let volume = &volumes[index];
        if volume.removable && size < volume.available_space {
            let mount = Mount {
                mount_point: volume.mount_point.clone(),
                available_space: volume.available_space,
            };
            mounts.push(mount);
        }
        index += 1;
    }
    assert(all.subrange(0, count as int) == all);
    mounts
}

/// `sysinfo::Disks::new_with_refreshed_list` and `Disks::list`: the volumes
/// that are mounted now, each with what `Disk::mount_point`,
/// `Disk::is_removable` and `Disk::available_space` give for it. What is
/// mounted is the machine's business, so nothing is claimed of the list.
#[verifier::external_body]
fn mounted_volumes() -> (volumes: Vec<Volume>) {
    sysinfo::Disks::new_with_refreshed_list().list().iter().map(
        |disk| Volume {
            mount_point: disk.mount_point().to_string_lossy().into_owned(),
            removable: disk.is_removable(),
            available_space: disk.available_space(),
        },
    ).collect()
}

/// The mounted volumes a backup of `size` bytes can go to, in the order in
/// which the system lists them. Whatever is mounted, each has more than
/// `size` bytes free.
pub fn find_suitable_mounts(size: u64) -> (mounts: Vec<Mount>)
    ensures
        forall|i: int| 0 <= i < mounts@.len() ==> size < (#[trigger] mounts@[i]).available_space,
{
    let volumes = mounted_volumes();
    let mounts = suitable_mounts(&volumes, size);
    proof {
        lemma_suitable_has_room(volume_models(volumes@), size as nat);
        assert forall|i: int| 0 <= i < mounts@.len() implies size < (
        #[trigger] mounts@[i]).available_space by {
            assert(mount_models(mounts@)[i] == mounts@[i]@);
        }
    }
    mounts
}

} // verus!
