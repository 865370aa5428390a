//! The backends offered by the backend picker: the latest build of each backend the
//! machine can run, then the installed builds.
use vstd::prelude::*;

verus! {

/// A llama.cpp build flavour.
#[derive(Debug, Clone, Copy, PartialEq, Eq, Structural)]
pub enum Backend {
    Cpu,
    Vulkan,
    CpuArm64,
    Rocm,
    RocmLemonade,
    Cuda,
    CpuWindows,
    VulkanWindows,
    CudaWindows12_4,
    CudaWindows13_1,
    HipWindows,
    CpuMacosArm64,
    CpuMacosX64,
}

/// The operating system.
#[derive(Debug, Clone, Copy, PartialEq, Eq, Structural)]
pub enum Platform {
    Linux,
    Windows,
    Macos,
}

/// The maker of a detected GPU.
#[derive(Debug, Clone, Copy, PartialEq, Eq, Structural)]
pub enum GpuVendor {
    Amd,
    Nvidia,
    /// Any other maker (no build of its own).
    Other,
}

/// The latest builds a GPU adds on this platform.
pub open spec fn vendor_backends(platform: Platform, vendor: GpuVendor) -> Seq<Backend> {
    match (platform, vendor) {
        (Platform::Linux, GpuVendor::Amd) => seq![Backend::Rocm, Backend::RocmLemonade],
        (Platform::Linux, GpuVendor::Nvidia) => seq![Backend::Cuda],
        (Platform::Windows, GpuVendor::Nvidia) => seq![Backend::CudaWindows12_4, Backend::CudaWindows13_1],
        (Platform::Windows, GpuVendor::Amd) => seq![Backend::HipWindows],
        _ => seq![],
    }
}

/// The latest builds the GPUs add, in the order the GPUs were detected.
pub open spec fn gpu_backends(platform: Platform, vendors: Seq<GpuVendor>) -> Seq<Backend>
    decreases vendors.len(),
{
    if vendors.len() == 0 {
        seq![]
    } else {
        gpu_backends(platform, vendors.drop_last()) + vendor_backends(platform, vendors.last())
    }
}

/// The latest builds this machine can run: the CPU and Vulkan builds (and the ARM build
/// on ARM) on Linux, the CPU and Vulkan builds on Windows, then the GPU builds; on macOS
/// the CPU build for its architecture.
pub open spec fn latest_backends(platform: Platform, arm64: bool, vendors: Seq<GpuVendor>) -> Seq<Backend> {
    match platform {
        Platform::Linux => (if arm64 {
            seq![Backend::Cpu, Backend::Vulkan, Backend::CpuArm64]
        } else {
            seq![Backend::Cpu, Backend::Vulkan]
        }) + gpu_backends(platform, vendors),
        Platform::Windows => seq![Backend::CpuWindows, Backend::VulkanWindows] + gpu_backends(platform, vendors),
        Platform::Macos => if arm64 { seq![Backend::CpuMacosArm64] } else { seq![Backend::CpuMacosX64] },
    }
}

/// The installed builds (`(backend, tag, supported here)`) this machine supports, in
/// order, as picker entries.
pub open spec fn installed_entries(installed: Seq<(Backend, Seq<char>, bool)>) -> Seq<(Backend, Option<Seq<char>>)>
    decreases installed.len(),
{
    if installed.len() == 0 {
        seq![]
    } else {
        let r = installed_entries(installed.drop_last());
        let (b, tag, ok) = installed.last();
        if ok { r.push((b, Some(tag))) } else { r }
    }
}

/// The backend picker's entries: the latest builds (no tag), then the supported
/// installed builds (with their tag).
pub open spec fn picker_entries(
    platform: Platform,
    arm64: bool,
    vendors: Seq<GpuVendor>,
    installed: Seq<(Backend, Seq<char>, bool)>,
) -> Seq<(Backend, Option<Seq<char>>)> {
    as_latest(latest_backends(platform, arm64, vendors)) + installed_entries(installed)
}

/// Builds as picker entries without a tag.
pub open spec fn as_latest(s: Seq<Backend>) -> Seq<(Backend, Option<Seq<char>>)> {
    s.map_values(|b: Backend| (b, None::<Seq<char>>))
}

pub open spec fn entries_view(v: Seq<(Backend, Option<String>)>) -> Seq<(Backend, Option<Seq<char>>)> {
    v.map_values(|e: (Backend, Option<String>)| (e.0, e.1.deep_view()))
}

pub open spec fn installed_view(v: Seq<(Backend, String, bool)>) -> Seq<(Backend, Seq<char>, bool)> {
    v.map_values(|e: (Backend, String, bool)| (e.0, e.1@, e.2))
}

fn push_latest(entries: &mut Vec<(Backend, Option<String>)>, b: Backend)
    ensures
        entries_view(final(entries)@) == entries_view(old(entries)@).push((b, None::<Seq<char>>)),
{
    let ghost before = entries@;
    entries.push((b, None));
    assert(entries_view(entries@) =~= entries_view(before).push((b, None::<Seq<char>>)));
}

/// Builds the backend picker's entries (see `picker_entries`) from the platform, the
/// architecture, the detected GPUs and the installed builds (each with whether this
/// platform supports it).
pub fn fetch_backend_picker_entries(
    platform: Platform,
    arm64: bool,
    vendors: &Vec<GpuVendor>,
    installed: &Vec<(Backend, String, bool)>,
) -> (r: Vec<(Backend, Option<String>)>)
    ensures
        entries_view(r@) == picker_entries(platform, arm64, vendors@, installed_view(installed@)),
{
    let mut entries: Vec<(Backend, Option<String>)> = Vec::new();
    let ghost latest = latest_backends(platform, arm64, vendors@);
    match platform {
        Platform::Linux => {
            push_latest(&mut entries, Backend::Cpu);
            push_latest(&mut entries, Backend::Vulkan);
            if arm64 {
                push_latest(&mut entries, Backend::CpuArm64);
            }
        },
        Platform::Windows => {
            push_latest(&mut entries, Backend::CpuWindows);
            push_latest(&mut entries, Backend::VulkanWindows);
        },
        Platform::Macos => {
            if arm64 {
                push_latest(&mut entries, Backend::CpuMacosArm64);
            } else {
                push_latest(&mut entries, Backend::CpuMacosX64);
            }
        },
    }
    let ghost base = entries_view(entries@);
    if platform != Platform::Macos {
        let mut i: usize = 0;
        assert(vendors@.take(0) =~= Seq::<GpuVendor>::empty());
        while i < vendors.len()
            invariant
                i <= vendors.len(),
                platform != Platform::Macos,
                entries_view(entries@) =~= base + as_latest(gpu_backends(platform, vendors@.take(i as int))),
            decreases vendors.len() - i,
        {
            assert(vendors@.take(i + 1).drop_last() =~= vendors@.take(i as int));
            assert(vendors@.take(i + 1).last() == vendors@[i as int]);
            let ghost prev = gpu_backends(platform, vendors@.take(i as int));
            let ghost add = vendor_backends(platform, vendors@[i as int]);
            let ghost before = entries_view(entries@);
            match (platform, vendors[i]) {
                (Platform::Linux, GpuVendor::Amd) => {
                    push_latest(&mut entries, Backend::Rocm);
                    push_latest(&mut entries, Backend::RocmLemonade);
                },
                (Platform::Linux, GpuVendor::Nvidia) => {
                    push_latest(&mut entries, Backend::Cuda);
                },
                (Platform::Windows, GpuVendor::Nvidia) => {
                    push_latest(&mut entries, Backend::CudaWindows12_4);
                    push_latest(&mut entries, Backend::CudaWindows13_1);
                },
                (Platform::Windows, GpuVendor::Amd) => {
                    push_latest(&mut entries, Backend::HipWindows);
                },
                _ => {},
            }
            assert(entries_view(entries@) =~= before + as_latest(add));
            assert(as_latest(prev + add) =~= as_latest(prev) + as_latest(add));
            i = i + 1;
        }
        assert(vendors@.take(vendors@.len() as int) =~= vendors@);
    }
    assert(entries_view(entries@) =~= as_latest(latest));
    let ghost latest_view = entries_view(entries@);
    let ghost iv = installed_view(installed@);
    let mut k: usize = 0;
    assert(iv.take(0) =~= Seq::<(Backend, Seq<char>, bool)>::empty());
    while k < installed.len()
        invariant
            k <= installed.len(),
            iv == installed_view(installed@),
            entries_view(entries@) =~= latest_view + installed_entries(iv.take(k as int)),
        decreases installed.len() - k,
    {
        assert(iv.take(k + 1).drop_last() =~= iv.take(k as int));
        assert(iv.take(k + 1).last() == (installed@[k as int].0, installed@[k as int].1@, installed@[k as int].2));
        if installed[k].2 {
            let ghost before = entries@;
            let tag = installed[k].1.clone();
            entries.push((installed[k].0, Some(tag)));
            assert(entries_view(entries@) =~= entries_view(before).push((installed@[k as int].0, Some(installed@[k as int].1@))));
        }
        k = k + 1;
    }
    assert(iv.take(iv.len() as int) =~= iv);
    entries
}

} // verus!
