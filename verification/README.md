# provisioner_operator

A Kubernetes operator that provisions attestation data for confidential virtual
machines on KubeVirt (Intel TDX and AMD SEV-SNP), with its decisions verified in
Verus.

The operator watches `VirtualMachineInstance`s. For one that names an `InitData`
resource it marks the VMI with a finalizer, asks Trustee for the VM's
provisioning data, derives the measurement and the OEM string from it, and
creates the resource. When the VMI is deleted it tells Trustee to forget the VM
and removes the finalizer.

- `src/` is the library. `controller` decides, `trustee` reads Trustee's
  answers, `kubevirt` builds requests to KubeVirt's subresources, `resource` and
  `config` hold the data, `encoding`, `json` and `status` call the outside
  crates, and `laws` states what holds of whole reconciliations.
- `app/` is the program: it watches the cluster, makes the calls and hands the
  answers to the library.
- `tests/` runs the library.
